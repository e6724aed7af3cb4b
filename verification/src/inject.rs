use vstd::prelude::*;
use crate::text::{has_prefix, has_suffix, starts_with, ends_with};

verus! {

/// Options of an `#[inject(...)]` field attribute.
pub enum InjectOptions {
    /// Plain `#[inject]`: a required binding.
    Required,
    /// `#[inject(optional)]`: the field is `Option<...>` and stays `None`
    /// when nothing is bound.
    Optional,
    /// `#[inject(name = "...")]`: a named binding.
    Named(String),
    /// `#[inject(optional, name = "...")]`.
    OptionalNamed(String),
}

/// The characters that `char::is_whitespace` accepts: those with the
/// Unicode `White_Space` property.
pub open spec fn is_ws(c: char) -> bool {
    ||| c == '\t'
    ||| c == '\n'
    ||| c == '\u{0B}'
    ||| c == '\u{0C}'
    ||| c == '\r'
    ||| c == ' '
    ||| c == '\u{85}'
    ||| c == '\u{A0}'
    ||| c == '\u{1680}'
    ||| ('\u{2000}' <= c && c <= '\u{200A}')
    ||| c == '\u{2028}'
    ||| c == '\u{2029}'
    ||| c == '\u{202F}'
    ||| c == '\u{205F}'
    ||| c == '\u{3000}'
}

fn is_whitespace(c: char) -> (r: bool)
    ensures
        r == is_ws(c),
{
    c == '\t' || c == '\n' || c == '\u{0B}' || c == '\u{0C}' || c == '\r' || c == ' ' || c
        == '\u{85}' || c == '\u{A0}' || c == '\u{1680}' || ('\u{2000}' <= c && c <= '\u{200A}')
        || c == '\u{2028}' || c == '\u{2029}' || c == '\u{202F}' || c == '\u{205F}' || c
        == '\u{3000}'
}

/// `s` without leading whitespace.
pub open spec fn trim_start(s: Seq<char>) -> Seq<char>
    decreases s.len(),
{
    if s.len() > 0 && is_ws(s[0]) {
        trim_start(s.drop_first())
    } else {
        s
    }
}

/// `s` without trailing whitespace.
pub open spec fn trim_end(s: Seq<char>) -> Seq<char>
    decreases s.len(),
{
    if s.len() > 0 && is_ws(s.last()) {
        trim_end(s.drop_last())
    } else {
        s
    }
}

/// `s` without leading or trailing whitespace, as `str::trim` gives it.
pub open spec fn trim(s: Seq<char>) -> Seq<char> {
    trim_end(trim_start(s))
}

/// Index of the first `,` in `s` at or after `from`, or `s.len()`.
pub open spec fn next_comma(s: Seq<char>, from: int) -> int
    decreases s.len() - from,
{
    if from >= s.len() {
        s.len() as int
    } else if s[from] == ',' {
        from
    } else {
        next_comma(s, from + 1)
    }
}

/// What the parser has gathered so far: whether `optional` appeared and the
/// last `name` given.
pub struct Gathered {
    pub optional: bool,
    pub name: Option<Seq<char>>,
}

/// The gathered state that the parser's variables stand for.
pub open spec fn gathered_of(optional: bool, name: Option<String>) -> Gathered {
    Gathered {
        optional,
        name: match name {
            Some(n) => Some(n@),
            None => None,
        },
    }
}

/// `name = "`
pub open spec fn name_spaced() -> Seq<char> {
    seq!['n', 'a', 'm', 'e', ' ', '=', ' ', '"']
}

/// `name="`
pub open spec fn name_tight() -> Seq<char> {
    seq!['n', 'a', 'm', 'e', '=', '"']
}

/// `optional`
pub open spec fn optional_word() -> Seq<char> {
    seq!['o', 'p', 't', 'i', 'o', 'n', 'a', 'l']
}

/// The quoted value after a `name` prefix of length `k`: the rest of the
/// part, without one closing quote if it has one.
pub open spec fn name_value(part: Seq<char>, k: int) -> Seq<char> {
    let rest = part.subrange(k, part.len() as int);
    if ends_with(rest, seq!['"']) {
        rest.subrange(0, rest.len() - 1)
    } else {
        rest
    }
}

/// One comma-separated part (already trimmed) folded into what was gathered.
pub open spec fn gather_part(g: Gathered, part: Seq<char>) -> Gathered {
    if part.len() == 0 {
        g
    } else if part == optional_word() {
        Gathered { optional: true, name: g.name }
    } else if starts_with(part, name_spaced()) {
        Gathered { optional: g.optional, name: Some(name_value(part, 8)) }
    } else if starts_with(part, name_tight()) {
        Gathered { optional: g.optional, name: Some(name_value(part, 6)) }
    } else {
        g
    }
}

/// Folds the parts of `s` from index `from` on into `g`.
pub open spec fn gather_from(s: Seq<char>, from: int, g: Gathered) -> Gathered
    decreases s.len() - from,
    when 0 <= from <= s.len()
{
    proof {
        lemma_next_comma_bounds(s, from);
    }
    let j = next_comma(s, from);
    let g2 = gather_part(g, trim(s.subrange(from, j)));
    if j >= s.len() {
        g2
    } else {
        gather_from(s, j + 1, g2)
    }
}

/// The options that the attribute arguments `s` spell.
pub open spec fn inject_options_of(s: Seq<char>) -> (bool, Option<Seq<char>>) {
    let g = gather_from(s, 0, Gathered { optional: false, name: None });
    (g.optional, g.name)
}

/// The next comma at or after `from` lies within `s` (or is its end), and
/// no comma comes before it.
pub proof fn lemma_next_comma_bounds(s: Seq<char>, from: int)
    requires
        0 <= from <= s.len(),
    ensures
        from <= next_comma(s, from) <= s.len(),
        next_comma(s, from) < s.len() ==> s[next_comma(s, from)] == ',',
        forall|k: int| from <= k < next_comma(s, from) ==> s[k] != ',',
    decreases s.len() - from,
{
    if from < s.len() && s[from] != ',' {
        lemma_next_comma_bounds(s, from + 1);
    }
}

/// Trims `s[from..to]`.
fn trimmed(s: &str, from: usize, to: usize) -> (r: String)
    requires
        from <= to <= s@.len(),
    ensures
        r@ == trim(s@.subrange(from as int, to as int)),
{
    let ghost t = s@.subrange(from as int, to as int);
    let mut a = from;
    while a < to && is_whitespace(s.get_char(a))
        invariant
            from <= a <= to,
            to <= s@.len(),
            t == s@.subrange(from as int, to as int),
            trim_start(t) == trim_start(s@.subrange(a as int, to as int)),
        decreases to - a,
    {
        assert(s@.subrange(a as int, to as int).drop_first() =~= s@.subrange(a + 1, to as int));
        a = a + 1;
    }
    assert(trim_start(t) == s@.subrange(a as int, to as int));
    let mut b = to;
    while b > a && is_whitespace(s.get_char(b - 1))
        invariant
            a <= b <= to,
            to <= s@.len(),
            trim_end(trim_start(t)) == trim_end(s@.subrange(a as int, b as int)),
        decreases b - a,
    {
        assert(s@.subrange(a as int, b as int).drop_last() =~= s@.subrange(a as int, b - 1));
        b = b - 1;
    }
    s.substring_char(a, b).to_string()
}

/// The value after a `name` prefix of length `k` in `part`.
fn name_value_of(part: &str, k: usize) -> (r: String)
    requires
        k <= part@.len(),
    ensures
        r@ == name_value(part@, k as int),
{
    let n = part.unicode_len();
    let rest = part.substring_char(k, n);
    proof {
        reveal_strlit("\"");
        assert("\""@ =~= seq!['"']);
    }
    if has_suffix(rest, "\"") {
        let m = rest.unicode_len();
        rest.substring_char(0, m - 1).to_string()
    } else {
        rest.to_string()
    }
}

/// Parse the arguments of `#[inject(...)]` (the tokens between the
/// parentheses as text): comma-separated parts, each trimmed; `optional`
/// marks the field optional and `name = "..."` (or `name="..."`) names the
/// binding, a later name replacing an earlier one; other parts are ignored.
pub fn parse_inject_parens(tokens: &str) -> (r: InjectOptions)
    ensures
        match inject_options_of(tokens@) {
            (false, None) => r is Required,
            (true, None) => r is Optional,
            (false, Some(n)) => r is Named && r->Named_0@ == n,
            (true, Some(n)) => r is OptionalNamed && r->OptionalNamed_0@ == n,
        },
{
    let len = tokens.unicode_len();
    let mut optional = false;
    let mut name: Option<String> = None;
    let mut start: usize = 0;
    loop
        invariant_except_break
            gather_from(tokens@, 0, Gathered { optional: false, name: None }) == gather_from(
                tokens@,
                start as int,
                gathered_of(optional, name),
            ),
        invariant
            len == tokens@.len(),
            start <= len,
        ensures
            gather_from(tokens@, 0, Gathered { optional: false, name: None }) == gathered_of(
                optional,
                name,
            ),
        decreases len - start,
    {
        let mut j = start;
        while j < len && tokens.get_char(j) != ','
            invariant
                start <= j <= len,
                len == tokens@.len(),
                forall|k: int| start <= k < j ==> tokens@[k] != ',',
            decreases len - j,
        {
            j = j + 1;
        }
        proof {
            lemma_next_comma_bounds(tokens@, start as int);
            if next_comma(tokens@, start as int) < j {
                assert(tokens@[next_comma(tokens@, start as int)] == ',');
            }
            assert(j == next_comma(tokens@, start as int));
        }
        let part = trimmed(tokens, start, j);
        let p = part.as_str();
        proof {
            reveal_strlit("optional");
            reveal_strlit("name = \"");
            reveal_strlit("name=\"");
            assert("optional"@ =~= optional_word());
            assert("name = \""@ =~= name_spaced());
            assert("name=\""@ =~= name_tight());
        }
        let ghost g_before = gathered_of(optional, name);
        assert(gather_from(tokens@, start as int, g_before) == if j >= len {
            gather_part(g_before, part@)
        } else {
            gather_from(tokens@, j + 1, gather_part(g_before, part@))
        });
        if p.unicode_len() == 0 {
        } else if part == "optional".to_string() {
            optional = true;
        } else if has_prefix(p, "name = \"") {
            name = Some(name_value_of(p, 8));
        } else if has_prefix(p, "name=\"") {
            name = Some(name_value_of(p, 6));
        }
        assert(gather_part(g_before, part@) == gathered_of(optional, name));
        if j >= len {
            break;
        }
        start = j + 1;
    }
    match name {
        None => if optional {
            InjectOptions::Optional
        } else {
            InjectOptions::Required
        },
        Some(n) => if optional {
            InjectOptions::OptionalNamed(n)
        } else {
            InjectOptions::Named(n)
        },
    }
}

} // verus!
