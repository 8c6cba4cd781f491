//! Message texts: numbers in decimal, and templates with named placeholders.

use vstd::prelude::*;
use vstd::string::*;

verus! {

/// A name and the text that stands for it.
#[derive(Debug, PartialEq, Eq)]
pub struct Substitution {
    pub name: String,
    pub value: String,
}

/// The digit `d` as a character.
pub open spec fn digit(d: nat) -> char {
    if d == 0 {
        '0'
    } else if d == 1 {
        '1'
    } else if d == 2 {
        '2'
    } else if d == 3 {
        '3'
    } else if d == 4 {
        '4'
    } else if d == 5 {
        '5'
    } else if d == 6 {
        '6'
    } else if d == 7 {
        '7'
    } else if d == 8 {
        '8'
    } else {
        '9'
    }
}

/// The number `n` in decimal, without leading zeros.
pub open spec fn decimal(n: nat) -> Seq<char>
    decreases n,
{
    if n < 10 {
        seq![digit(n)]
    } else {
        decimal(n / 10).push(digit(n % 10))
    }
}

/// Whether `template` holds, from `i` on, an opening brace, `name` and a closing brace.
pub open spec fn placeholder_at(template: Seq<char>, i: int, name: Seq<char>) -> bool {
    &&& 0 <= i
    &&& i + name.len() + 2 <= template.len()
    &&& template[i] == '{'
    &&& template.subrange(i + 1, i + 1 + name.len()) == name
    &&& template[i + 1 + name.len()] == '}'
}

/// The names and values of `substitutions`.
pub open spec fn pairs(substitutions: Seq<Substitution>) -> Seq<(Seq<char>, Seq<char>)> {
    Seq::new(substitutions.len(), |i: int| (substitutions[i].name@, substitutions[i].value@))
}

/// The first substitution from `k` on whose placeholder stands at `i` of
/// `template`. A substitution is a name and the value that stands for it.
pub open spec fn find_placeholder(
    template: Seq<char>,
    i: int,
    substitutions: Seq<(Seq<char>, Seq<char>)>,
    k: int,
) -> Option<int>
    decreases substitutions.len() - k,
{
    if k < 0 || k >= substitutions.len() {
        None
    } else if placeholder_at(template, i, substitutions[k].0) {
        Some(k)
    } else {
        find_placeholder(template, i, substitutions, k + 1)
    }
}

/// The text of `template` from `i` on, with every placeholder replaced. The
/// template is read once from left to right: where the placeholder of a
/// substitution stands, its value is written and reading goes on behind the
/// placeholder; any other character is written as it is. Where the
/// placeholders of several substitutions stand, the first substitution counts.
pub open spec fn render_from(
    template: Seq<char>,
    i: int,
    substitutions: Seq<(Seq<char>, Seq<char>)>,
) -> Seq<char>
    decreases
            if i < template.len() {
                template.len() - i
            } else {
                0
            },
{
    if i < 0 || i >= template.len() {
        Seq::empty()
    } else {
        match find_placeholder(template, i, substitutions, 0) {
            Some(k) => substitutions[k].1 + render_from(
                template,
                i + substitutions[k].0.len() + 2,
                substitutions,
            ),
            None => seq![template[i]] + render_from(template, i + 1, substitutions),
        }
    }
}

/// The text of `template` with every placeholder replaced.
pub open spec fn render(template: Seq<char>, substitutions: Seq<(Seq<char>, Seq<char>)>) -> Seq<
    char,
> {
    render_from(template, 0, substitutions)
}

/// The digit `d` as text.
fn digit_str(d: u64) -> (text: &'static str)
    requires
        d < 10,
    ensures
        text@ == seq![digit(d as nat)],
{
    proof {
        reveal_strlit("0");
        reveal_strlit("1");
        reveal_strlit("2");
        reveal_strlit("3");
        reveal_strlit("4");
        reveal_strlit("5");
        reveal_strlit("6");
        reveal_strlit("7");
        reveal_strlit("8");
        reveal_strlit("9");
    }
    let text = if d == 0 {
        "0"
    } else if d == 1 {
        "1"
    } else if d == 2 {
        "2"
    } else if d == 3 {
        "3"
    } else if d == 4 {
        "4"
    } else if d == 5 {
        "5"
    } else if d == 6 {
        "6"
    } else if d == 7 {
        "7"
    } else if d == 8 {
        "8"
    } else {
        "9"
    };
    assert(text@ =~= seq![digit(d as nat)]);
    text
}

/// Writes `n` in decimal behind `out`.
pub fn push_decimal(out: &mut String, n: u64)
    ensures
        final(out)@ == old(out)@ + decimal(n as nat),
    decreases n,
{
    if n >= 10 {
        push_decimal(out, n / 10);
    }
    out.append(digit_str(n % 10));
    assert(out@ =~= old(out)@ + decimal(n as nat));
}

/// The number `n` in decimal.
pub fn decimal_string(n: u64) -> (text: String)
    ensures
        text@ == decimal(n as nat),
{
    let mut text = String::new();
    push_decimal(&mut text, n);
    assert(text@ =~= decimal(n as nat));
    text
}

/// The first substitution whose placeholder stands at `i` of `template`, with
/// the length of its name.
fn match_placeholder(
    template: &str,
    length: usize,
    i: usize,
    substitutions: &Vec<Substitution>,
) -> (found: Option<(usize, usize)>)
    requires
        length == template@.len(),
        i < length,
    ensures
        match found {
            Some((k, name_length)) => find_placeholder(
                template@,
                i as int,
                pairs(substitutions@),
                0,
            ) == Some(k as int) && k < substitutions@.len() && name_length
                == substitutions@[k as int].name@.len() && i + name_length + 2 <= length,
            None => find_placeholder(template@, i as int, pairs(substitutions@), 0) is None,
        },
{
    if template.get_char(i) != '{' || length - i < 2 {
        proof {
            lemma_no_placeholder(template@, i as int, pairs(substitutions@), 0);
        }
        return None;
    }
    let room = length - i - 2;
    let n = substitutions.len();
    let mut k: usize = 0;
    while k < n
        invariant
            k <= n,
            n == substitutions@.len(),
            length == template@.len(),
            i + 2 + room == length,
            template@[i as int] == '{',
            find_placeholder(template@, i as int, pairs(substitutions@), 0) == find_placeholder(
                template@,
                i as int,
                pairs(substitutions@),
                k as int,
            ),
        decreases n - k,
    {
        let name = substitutions[k].name.as_str();
        let name_length = name.unicode_len();
        if name_length <= room {
            let inner = template.substring_char(i + 1, i + 1 + name_length);
            if template.get_char(i + 1 + name_length) == '}' && inner.to_owned()
                == name.to_owned() {
                return Some((k, name_length));
            }
        }
        k += 1;
    }
    None
}

/// Where no opening brace stands, or no room is left for two braces, no
/// placeholder stands.
proof fn lemma_no_placeholder(
    template: Seq<char>,
    i: int,
    substitutions: Seq<(Seq<char>, Seq<char>)>,
    k: int,
)
    requires
        0 <= i < template.len(),
        template[i] != '{' || template.len() - i < 2,
        0 <= k,
    ensures
        find_placeholder(template, i, substitutions, k) is None,
    decreases substitutions.len() - k,
{
    if k < substitutions.len() {
        lemma_no_placeholder(template, i, substitutions, k + 1);
    }
}

/// The text of `template` with every placeholder replaced: an opening brace,
/// the name of a substitution and a closing brace give way to the value of
/// the substitution.
pub fn render_template(template: &str, substitutions: &Vec<Substitution>) -> (text: String)
    ensures
        text@ == render(template@, pairs(substitutions@)),
{
    let length = template.unicode_len();
    let mut text = String::new();
    let mut i: usize = 0;
    while i < length
        invariant
            i <= length,
            length == template@.len(),
            text@ + render_from(template@, i as int, pairs(substitutions@)) == render(
                template@,
                pairs(substitutions@),
            ),
        decreases length - i,
    {
        let ghost before = text@;
        match match_placeholder(template, length, i, substitutions) {
            Some((k, name_length)) => {
                text.append(substitutions[k].value.as_str());
                proof {
                    let rest = render_from(
                        template@,
                        i + substitutions@[k as int].name@.len() + 2,
                        pairs(substitutions@),
                    );
                    assert(render_from(template@, i as int, pairs(substitutions@))
                        == substitutions@[k as int].value@ + rest);
                    assert(text@ + rest =~= before + (substitutions@[k as int].value@ + rest));
                }
                i = i + name_length + 2;
            },
            None => {
                text.append(template.substring_char(i, i + 1));
                proof {
                    let rest = render_from(template@, i + 1, pairs(substitutions@));
                    assert(template@.subrange(i as int, i + 1) =~= seq![template@[i as int]]);
                    assert(render_from(template@, i as int, pairs(substitutions@)) == seq![
                        template@[i as int],
                    ] + rest);
                    assert(text@ + rest =~= before + (seq![template@[i as int]] + rest));
                }
                i = i + 1;
            },
        }
    }
    assert(text@ =~= render(template@, pairs(substitutions@)));
    text
}

} // verus!
