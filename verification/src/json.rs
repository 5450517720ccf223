use vstd::prelude::*;
use vstd::string::StringExecFns;

verus! {

/// The hexadecimal digit for `n`, in lower case.
pub open spec fn hex_digit(n: int) -> char {
    if n == 0 {
        '0'
    } else if n == 1 {
        '1'
    } else if n == 2 {
        '2'
    } else if n == 3 {
        '3'
    } else if n == 4 {
        '4'
    } else if n == 5 {
        '5'
    } else if n == 6 {
        '6'
    } else if n == 7 {
        '7'
    } else if n == 8 {
        '8'
    } else if n == 9 {
        '9'
    } else if n == 10 {
        'a'
    } else if n == 11 {
        'b'
    } else if n == 12 {
        'c'
    } else if n == 13 {
        'd'
    } else if n == 14 {
        'e'
    } else {
        'f'
    }
}

/// How one character stands inside a JSON string: the quote, the backslash
/// and the control characters are escaped, every other character stands for
/// itself.
pub open spec fn escape_char(c: char) -> Seq<char> {
    if c == '"' {
        seq!['\\', '"']
    } else if c == '\\' {
        seq!['\\', '\\']
    } else if c == '\u{8}' {
        seq!['\\', 'b']
    } else if c == '\t' {
        seq!['\\', 't']
    } else if c == '\n' {
        seq!['\\', 'n']
    } else if c == '\u{c}' {
        seq!['\\', 'f']
    } else if c == '\r' {
        seq!['\\', 'r']
    } else if (c as int) < 0x20 {
        seq!['\\', 'u', '0', '0', hex_digit((c as int) / 16), hex_digit((c as int) % 16)]
    } else {
        seq![c]
    }
}

/// The characters of `s`, each as it stands inside a JSON string.
pub open spec fn escaped(s: Seq<char>) -> Seq<char>
    decreases s.len(),
{
    if s.len() == 0 {
        Seq::empty()
    } else {
        escaped(s.drop_last()) + escape_char(s.last())
    }
}

/// The JSON string for the text `s`.
pub open spec fn json_string(s: Seq<char>) -> Seq<char> {
    seq!['"'] + escaped(s) + seq!['"']
}

/// The texts `items` with `,` between them.
pub open spec fn comma_separated(items: Seq<Seq<char>>) -> Seq<char>
    decreases items.len(),
{
    if items.len() == 0 {
        Seq::empty()
    } else if items.len() == 1 {
        items[0]
    } else {
        comma_separated(items.drop_last()) + seq![','] + items.last()
    }
}

/// The JSON array of the JSON texts `items`.
pub open spec fn json_list(items: Seq<Seq<char>>) -> Seq<char> {
    seq!['['] + comma_separated(items) + seq![']']
}

/// Calls `serde_json::to_string` on a string slice. The result is the text
/// between double quotes, with `"` and `\` behind a backslash, the control
/// characters below U+0020 as `\b`, `\t`, `\n`, `\f`, `\r` or `\u00XX` with
/// lower-case digits, and every other character unchanged. Serializing a
/// string slice into memory has no way to fail.
#[verifier::external_body]
fn to_json_string(s: &str) -> (r: String)
    ensures
        r@ == json_string(s@),
{
    serde_json::to_string(s).unwrap()
}

/// A text that is JSON already: it is written out as it is.
#[derive(Debug, Clone, PartialEq, Eq)]
pub struct QuotedJson {
    text: String,
}

impl View for QuotedJson {
    type V = Seq<char>;

    closed spec fn view(&self) -> Seq<char> {
        self.text@
    }
}

impl QuotedJson {
    /// The JSON string for `s`.
    pub fn quote_str(s: &str) -> (q: QuotedJson)
        ensures
            q@ == json_string(s@),
    {
        QuotedJson { text: to_json_string(s) }
    }

    /// Takes `text`, which the caller knows to be JSON, as it is.
    pub fn from_json_text(text: String) -> (q: QuotedJson)
        ensures
            q@ == text@,
    {
        QuotedJson { text }
    }

    /// The JSON array of `items`.
    pub fn list(items: &Vec<QuotedJson>) -> (q: QuotedJson)
        ensures
            q@ == json_list(items@.map_values(|item: QuotedJson| item@)),
    {
        let ghost texts = items@.map_values(|item: QuotedJson| item@);
        let mut text = String::new();
        proof {
            reveal_strlit("[");
            reveal_strlit(",");
            reveal_strlit("]");
        }
        text.append("[");
        let mut i: usize = 0;
        while i < items.len()
            invariant
                i <= items@.len(),
                texts == items@.map_values(|item: QuotedJson| item@),
                text@ == seq!['['] + comma_separated(texts.take(i as int)),
            decreases items@.len() - i,
        {
            let ghost now = texts.take(i + 1);
            assert(now.drop_last() =~= texts.take(i as int));
            if i != 0 {
                proof {
                    reveal_strlit(",");
                }
                text.append(",");
            }
            text.append(items[i].as_str());
            i += 1;
        }
        assert(texts.take(i as int) =~= texts);
        text.append("]");
        QuotedJson { text }
    }

    /// The JSON array of the JSON strings for `items`.
    pub fn quote_list(items: &Vec<String>) -> (q: QuotedJson)
        ensures
            q@ == json_list(items@.map_values(|item: String| json_string(item@))),
    {
        let mut quoted: Vec<QuotedJson> = Vec::new();
        let mut i: usize = 0;
        while i < items.len()
            invariant
                i <= items@.len(),
                quoted@.len() == i,
                forall|j: int| 0 <= j < i ==> (#[trigger] quoted@[j])@ == json_string(items@[j]@),
            decreases items@.len() - i,
        {
            quoted.push(QuotedJson::quote_str(items[i].as_str()));
            i += 1;
        }
        assert(quoted@.map_values(|item: QuotedJson| item@) =~= items@.map_values(
            |item: String| json_string(item@),
        ));
        QuotedJson::list(&quoted)
    }

    /// The text.
    pub fn as_str(&self) -> (s: &str)
        ensures
            s@ == self@,
    {
        self.text.as_str()
    }

    /// A copy of the text.
    pub fn dupe(&self) -> (q: QuotedJson)
        ensures
            q@ == self@,
    {
        QuotedJson { text: self.text.clone() }
    }
}

} // verus!
