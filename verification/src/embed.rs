//! Messages as embeds.

use crate::config::Config;
use crate::frontend::Frontend;
use crate::message::{ActionMessage, Message, ResponseMessage};
use serenity::builder::CreateEmbed;
use vstd::prelude::*;

verus! {

/// The embed builder of serenity, `CreateEmbed`: its fields are not looked
/// into here.
#[verifier::external_type_specification]
#[verifier::external_body]
pub struct ExCreateEmbed(serenity::builder::CreateEmbed);

/// The texts that an embed holds, by the name of the field: for a field that
/// holds a text, that text; for a field that holds a link, the link. A field
/// that holds anything else has no text.
pub uninterp spec fn embed_texts(embed: CreateEmbed) -> Map<Seq<char>, Seq<char>>;

/// The color of an embed: the number that its field `color` holds, if it
/// holds one.
pub uninterp spec fn embed_color(embed: CreateEmbed) -> Option<u32>;

/// Calls `CreateEmbed::description`, which stores the text in the field
/// `description` of the embed and leaves every other field as it is.
#[verifier::external_body]
fn set_description(embed: &mut CreateEmbed, text: &str)
    ensures
        embed_texts(*final(embed)) == embed_texts(*old(embed)).insert("description"@, text@),
        embed_color(*final(embed)) == embed_color(*old(embed)),
{
    embed.description(text);
}

/// Calls `CreateEmbed::image`, which stores the link in the field `image` of
/// the embed and leaves every other field as it is.
#[verifier::external_body]
fn set_image(embed: &mut CreateEmbed, url: &str)
    ensures
        embed_texts(*final(embed)) == embed_texts(*old(embed)).insert("image"@, url@),
        embed_color(*final(embed)) == embed_color(*old(embed)),
{
    embed.image(url);
}

/// Calls `CreateEmbed::color`, which stores the number in the field `color`
/// of the embed, in the place of whatever the field held, and leaves every
/// other field as it is.
#[verifier::external_body]
fn set_color(embed: &mut CreateEmbed, color: u32)
    ensures
        embed_texts(*final(embed)) == embed_texts(*old(embed)).remove("color"@),
        embed_color(*final(embed)) == Some(color),
{
    embed.color(color);
}

impl ActionMessage {
    /// The color of the message as an embed.
    pub open spec fn color(&self, config: &Config) -> u32 {
        if self.spec_is_error() {
            config.error_embed_color
        } else {
            config.action_embed_color
        }
    }

    /// The texts of an embed that held `texts`, once the message is written
    /// into it.
    pub open spec fn written(
        &self,
        texts: Map<Seq<char>, Seq<char>>,
        config: &Config,
    ) -> Map<Seq<char>, Seq<char>> {
        texts.insert("description"@, self.text().render(config)).remove("color"@)
    }

    /// Writes the message into `embed`: its text as the description, and the
    /// color of an error or of an action.
    pub fn create_embed<'e>(&self, embed: &'e mut CreateEmbed, config: &Config) -> (written:
        &'e mut CreateEmbed)
        ensures
            embed_texts(*written) == self.written(embed_texts(*old(embed)), config),
            embed_color(*written) == Some(self.color(config)),
            *final(embed) == *final(written),
    {
        let text = self.to_string(config);
        set_description(embed, text.as_str());
        set_color(
            embed,
            if self.is_error() {
                config.error_embed_color
            } else {
                config.action_embed_color
            },
        );
        embed
    }
}

impl ResponseMessage {
    /// The color of the message as an embed.
    pub open spec fn color(&self, config: &Config) -> u32 {
        if self.spec_is_error() {
            config.error_embed_color
        } else {
            config.response_embed_color
        }
    }

    /// Whether the text of the message is the link of an image.
    pub open spec fn is_image(&self) -> bool {
        self is ImageEmbed || self is Pet || self is ShinyPet
    }

    /// The field of an embed that the text of the message goes into.
    pub open spec fn embed_field(&self) -> Seq<char> {
        if self.is_image() {
            "image"@
        } else {
            "description"@
        }
    }

    /// The texts of an embed that held `texts`, once the message is written
    /// into it.
    pub open spec fn written(
        &self,
        texts: Map<Seq<char>, Seq<char>>,
        config: &Config,
    ) -> Map<Seq<char>, Seq<char>> {
        texts.remove("color"@).insert(self.embed_field(), self.text().render(config))
    }

    /// Writes the message into `embed`: the color of an error or of a
    /// response, and its text, as the image where the text is the link of an
    /// image, else as the description.
    pub fn create_embed<'e>(&self, embed: &'e mut CreateEmbed, config: &Config) -> (written:
        &'e mut CreateEmbed)
        ensures
            embed_texts(*written) == self.written(embed_texts(*old(embed)), config),
            embed_color(*written) == Some(self.color(config)),
            *final(embed) == *final(written),
    {
        set_color(
            embed,
            if self.is_error() {
                config.error_embed_color
            } else {
                config.response_embed_color
            },
        );
        match self {
            ResponseMessage::ImageEmbed { image_url } => set_image(embed, image_url.as_str()),
            ResponseMessage::Pet => set_image(embed, self.to_string(config).as_str()),
            ResponseMessage::ShinyPet => set_image(embed, self.to_string(config).as_str()),
            _ => set_description(embed, self.to_string(config).as_str()),
        }
        embed
    }
}

impl Message {
    /// The color of the message as an embed.
    pub open spec fn color(&self, config: &Config) -> u32 {
        match self {
            Message::Action(action) => action.color(config),
            Message::Response(response) => response.color(config),
        }
    }

    /// The texts of an embed that held `texts`, once the message is written
    /// into it.
    pub open spec fn written(
        &self,
        texts: Map<Seq<char>, Seq<char>>,
        config: &Config,
    ) -> Map<Seq<char>, Seq<char>> {
        match self {
            Message::Action(action) => action.written(texts, config),
            Message::Response(response) => response.written(texts, config),
        }
    }

    /// Writes the message into `embed`, as its kind does.
    pub fn create_embed<'e>(&self, embed: &'e mut CreateEmbed, config: &Config) -> (written:
        &'e mut CreateEmbed)
        ensures
            embed_texts(*written) == self.written(embed_texts(*old(embed)), config),
            embed_color(*written) == Some(self.color(config)),
            *final(embed) == *final(written),
    {
        match self {
            Message::Action(action) => action.create_embed(embed, config),
            Message::Response(response) => response.create_embed(embed, config),
        }
    }
}


impl Frontend {
    /// Writes into `embed` what a user is told when a command was given up:
    /// the text that is set up for an unknown error, in the color of a response.
    pub fn create_error_embed<'e>(&self, embed: &'e mut CreateEmbed) -> (written:
        &'e mut CreateEmbed)
        ensures
            embed_texts(*written) == embed_texts(*old(embed)).insert(
                "description"@,
                self.config.spec_raw_message("action.unknown_error"@),
            ).remove("color"@),
            embed_color(*written) == Some(self.config.response_embed_color),
            *final(embed) == *final(written),
    {
        let text = self.config.get_raw_message("action.unknown_error");
        set_description(embed, text.as_str());
        set_color(embed, self.config.response_embed_color);
        embed
    }
}


} // verus!
