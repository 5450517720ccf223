use vstd::prelude::*;
use vstd::string::StringExecFns;
use vstd::string::StrSliceExecFns;
use crate::json::json_list;
use crate::json::json_string;
use crate::json::QuotedJson;
use crate::targets::fields_view;
use crate::targets::JsonWriter;
use crate::targets::Stats;
use regex::RegexSet;

verus! {

#[verifier::external_type_specification]
#[verifier::external_body]
pub struct ExRegexSet(regex::RegexSet);

#[verifier::external_type_specification]
#[verifier::external_body]
pub struct ExRegexError(regex::Error);

/// The texts in which a `RegexSet` finds a match.
pub uninterp spec fn matched_texts(set: RegexSet) -> Set<Seq<char>>;

/// What `RegexSet::new` makes of the patterns `patterns`: nothing where it
/// refuses them, else the texts in which the set that it gives finds a match.
pub uninterp spec fn compiled(patterns: Seq<Seq<char>>) -> Option<Set<Seq<char>>>;

/// The texts of `strings`.
pub open spec fn texts(strings: Seq<String>) -> Seq<Seq<char>> {
    strings.map_values(|s: String| s@)
}

/// Calls `RegexSet::new` on the patterns. Whether it succeeds, and in which
/// texts the set that it gives finds a match, depends on the patterns alone.
#[verifier::external_body]
fn regex_set_new(patterns: &Vec<String>) -> (r: Result<RegexSet, regex::Error>)
    ensures
        match r {
            Ok(set) => compiled(texts(patterns@)) == Some(matched_texts(set)),
            Err(_) => compiled(texts(patterns@)) is None,
        },
{
    RegexSet::new(patterns)
}

/// Calls `RegexSet::is_match`: whether the set finds a match in `text`.
#[verifier::external_body]
fn regex_set_is_match(set: &RegexSet, text: &str) -> (b: bool)
    ensures
        b == matched_texts(*set).contains(text@),
{
    set.is_match(text)
}

/// Calls `to_string` on a `regex::Error`: the message of the error.
#[verifier::external_body]
fn regex_error_message(error: &regex::Error) -> String {
    error.to_string()
}

/// The decimal digit for `n`.
pub open spec fn decimal_digit(n: nat) -> char {
    if n == 0 {
        '0'
    } else if n == 1 {
        '1'
    } else if n == 2 {
        '2'
    } else if n == 3 {
        '3'
    } else if n == 4 {
        '4'
    } else if n == 5 {
        '5'
    } else if n == 6 {
        '6'
    } else if n == 7 {
        '7'
    } else if n == 8 {
        '8'
    } else {
        '9'
    }
}

/// The number `n` in decimal digits, without leading zeros.
pub open spec fn decimal_text(n: nat) -> Seq<char>
    decreases n,
{
    if n < 10 {
        seq![decimal_digit(n)]
    } else {
        decimal_text(n / 10).push(decimal_digit(n % 10))
    }
}

/// The text of one decimal digit.
fn digit_text(digit: u64) -> (text: &'static str)
    requires
        digit < 10,
    ensures
        text@ == seq![decimal_digit(digit as nat)],
{
    proof {
        reveal_strlit("0");
        reveal_strlit("1");
        reveal_strlit("2");
        reveal_strlit("3");
        reveal_strlit("4");
        reveal_strlit("5");
        reveal_strlit("6");
        reveal_strlit("7");
        reveal_strlit("8");
        reveal_strlit("9");
    }
    let text = if digit == 0 {
        "0"
    } else if digit == 1 {
        "1"
    } else if digit == 2 {
        "2"
    } else if digit == 3 {
        "3"
    } else if digit == 4 {
        "4"
    } else if digit == 5 {
        "5"
    } else if digit == 6 {
        "6"
    } else if digit == 7 {
        "7"
    } else if digit == 8 {
        "8"
    } else {
        "9"
    };
    text
}

/// The digits `digits`, which stand lowest first, as text with the highest
/// first.
pub open spec fn digits_text(digits: Seq<u64>) -> Seq<char>
    decreases digits.len(),
{
    if digits.len() == 0 {
        Seq::empty()
    } else {
        seq![decimal_digit(digits.last() as nat)] + digits_text(digits.drop_last())
    }
}

/// The number `n` in decimal digits, without leading zeros.
pub fn decimal(n: u64) -> (r: String)
    ensures
        r@ == decimal_text(n as nat),
{
    let mut digits: Vec<u64> = Vec::new();
    let mut rest: u64 = n;
    while rest >= 10
        invariant
            decimal_text(rest as nat) + digits_text(digits@) == decimal_text(n as nat),
            forall|k: int| 0 <= k < digits@.len() ==> digits@[k] < 10,
        decreases rest,
    {
        let ghost before = digits@;
        digits.push(rest % 10);
        assert(digits@.drop_last() =~= before);
        rest = rest / 10;
    }
    let mut out = String::new();
    out.append(digit_text(rest));
    let mut i: usize = digits.len();
    assert(digits@.take(i as int) =~= digits@);
    while i > 0
        invariant
            i <= digits@.len(),
            forall|k: int| 0 <= k < digits@.len() ==> digits@[k] < 10,
            out@ + digits_text(digits@.take(i as int)) == decimal_text(n as nat),
        decreases i,
    {
        let ghost head = digits@.take(i as int);
        assert(head.drop_last() =~= digits@.take(i - 1));
        out.append(digit_text(digits[i - 1]));
        i -= 1;
    }
    out
}

/// Which attributes of a target a listing shows.
#[derive(Debug, Clone, Copy, PartialEq, Eq, Structural)]
pub enum AttrInspectOptions {
    All,
    DefinedOnly,
}

/// The output formats that a request can name.
#[derive(Debug, Clone, Copy, PartialEq, Eq, Structural)]
pub enum OutputFormat {
    Unknown,
    Text,
    Json,
    JsonLines,
    Stats,
}

/// Which graph the hash of a target is taken over.
#[derive(Debug, Clone, Copy, PartialEq, Eq, Structural)]
pub enum TargetHashGraphType {
    /// No hash is taken.
    Unhashed,
    Unconfigured,
    Configured,
}

/// The options of a request that the choice of a formatter depends on.
pub struct FormatterOptions {
    /// Patterns for the names of the attributes to show; empty for all.
    pub output_attributes: Vec<String>,
    pub include_default_attributes: bool,
    pub target_call_stacks: bool,
    /// None where the request holds a number that names no graph type.
    pub target_hash_graph_type: Option<TargetHashGraphType>,
}

/// Why no formatter could be made for a request.
#[derive(Debug, Clone, PartialEq, Eq)]
pub enum FormatterError {
    /// The request holds a number that names no output format.
    InvalidOutputFormat,
    /// Attribute patterns were given with an output format other than JSON.
    AttrsOnlyWithJson,
    /// The request names no output format.
    OutputFormatNotSet,
    /// The attribute patterns are not valid regular expressions.
    InvalidAttributePattern { message: String },
}

/// What a formatter reads of one target.
pub struct TargetInfo {
    pub label: String,
    pub rule_type: String,
    pub deps: Vec<String>,
    pub inputs: Vec<String>,
    pub package: String,
    /// The attributes to show, each with its value as JSON.
    pub attrs: Vec<(String, QuotedJson)>,
    pub call_stack: Option<String>,
    pub target_hash: Option<String>,
}

pub open spec fn type_key() -> Seq<char> {
    "buck.type"@
}

pub open spec fn deps_key() -> Seq<char> {
    "buck.deps"@
}

pub open spec fn inputs_key() -> Seq<char> {
    "buck.inputs"@
}

pub open spec fn target_hash_key() -> Seq<char> {
    "buck.target_hash"@
}

pub open spec fn package_key() -> Seq<char> {
    "buck.package"@
}

pub open spec fn call_stack_key() -> Seq<char> {
    "buck.target_call_stack"@
}

pub open spec fn file_key() -> Seq<char> {
    "buck.file"@
}

pub open spec fn imports_key() -> Seq<char> {
    "buck.imports"@
}

pub open spec fn error_key() -> Seq<char> {
    "buck.error"@
}

/// The JSON array of the JSON strings for `items`.
pub open spec fn quoted_list(items: Seq<String>) -> Seq<char> {
    json_list(items.map_values(|item: String| json_string(item@)))
}

impl TargetInfo {
    /// The fields that a JSON entry for the target can have, in the order in
    /// which they are written; `call_stacks` says whether call stacks are
    /// asked for.
    pub open spec fn fields(&self, call_stacks: bool) -> Seq<(Seq<char>, Seq<char>)> {
        seq![
            (type_key(), json_string(self.rule_type@)),
            (deps_key(), quoted_list(self.deps@)),
            (inputs_key(), quoted_list(self.inputs@)),
        ] + (match self.target_hash {
            Some(hash) => seq![(target_hash_key(), json_string(hash@))],
            None => Seq::empty(),
        }) + seq![(package_key(), json_string(self.package@))] + fields_view(self.attrs@) + (
        match self.call_stack {
            Some(stack) if call_stacks => seq![(call_stack_key(), json_string(stack@))],
            _ => Seq::empty(),
        })
    }
}

/// Writes targets as JSON objects.
pub struct JsonFormat {
    pub attributes: Option<RegexSet>,
    pub attr_inspect_opts: AttrInspectOptions,
    pub target_call_stacks: bool,
    pub writer: JsonWriter,
}

impl JsonFormat {
    /// The names of fields that the patterns of the format let through, if
    /// it has patterns.
    pub open spec fn filter(&self) -> Option<Set<Seq<char>>> {
        match self.attributes {
            Some(set) => Some(matched_texts(set)),
            None => None,
        }
    }

    /// Whether a field with the name `name` is shown.
    pub open spec fn shows(&self, name: Seq<char>) -> bool {
        match self.filter() {
            Some(names) => names.contains(name),
            None => true,
        }
    }

    /// Those of `fields` that are shown, in their order.
    pub open spec fn shown(&self, fields: Seq<(Seq<char>, Seq<char>)>) -> Seq<
        (Seq<char>, Seq<char>),
    >
        decreases fields.len(),
    {
        if fields.len() == 0 {
            Seq::empty()
        } else if self.shows(fields.last().0) {
            self.shown(fields.drop_last()).push(fields.last())
        } else {
            self.shown(fields.drop_last())
        }
    }

    /// What `target` appends for `info`.
    pub open spec fn target_text(&self, info: &TargetInfo) -> Seq<char> {
        self.writer.entry_text(self.shown(info.fields(self.target_call_stacks)))
    }

    /// Whether a field with the name `name` is shown: always without
    /// patterns, else if one of the patterns matches in the name.
    pub fn is_shown(&self, name: &str) -> (b: bool)
        ensures
            b == self.shows(name@),
    {
        match &self.attributes {
            Some(set) => regex_set_is_match(set, name),
            None => true,
        }
    }

    /// Adds the field to `selected` if its name is shown.
    fn print_attr(
        &self,
        selected: &mut Vec<(String, QuotedJson)>,
        Ghost(seen): Ghost<Seq<(Seq<char>, Seq<char>)>>,
        name: &str,
        value: QuotedJson,
    )
        requires
            fields_view(old(selected)@) == self.shown(seen),
        ensures
            fields_view(final(selected)@) == self.shown(seen.push((name@, value@))),
    {
        let ghost now = seen.push((name@, value@));
        assert(now.drop_last() =~= seen);
        if self.is_shown(name) {
            selected.push((name.to_owned(), value));
        }
    }

    pub fn target(&self, target_info: &TargetInfo, buffer: &mut String)
        ensures
            final(buffer)@ == old(buffer)@ + self.target_text(target_info),
    {
        let mut selected: Vec<(String, QuotedJson)> = Vec::new();
        let ghost mut seen: Seq<(Seq<char>, Seq<char>)> = Seq::empty();
        assert(fields_view(selected@) =~= self.shown(seen));
        self.print_attr(
            &mut selected,
            Ghost(seen),
            "buck.type",
            QuotedJson::quote_str(target_info.rule_type.as_str()),
        );
        proof {
            seen = seen.push((type_key(), json_string(target_info.rule_type@)));
        }
        self.print_attr(
            &mut selected,
            Ghost(seen),
            "buck.deps",
            QuotedJson::quote_list(&target_info.deps),
        );
        proof {
            seen = seen.push((deps_key(), quoted_list(target_info.deps@)));
        }
        self.print_attr(
            &mut selected,
            Ghost(seen),
            "buck.inputs",
            QuotedJson::quote_list(&target_info.inputs),
        );
        proof {
            seen = seen.push((inputs_key(), quoted_list(target_info.inputs@)));
        }
        if let Some(hash) = &target_info.target_hash {
            self.print_attr(
                &mut selected,
                Ghost(seen),
                "buck.target_hash",
                QuotedJson::quote_str(hash.as_str()),
            );
            proof {
                seen = seen.push((target_hash_key(), json_string(hash@)));
            }
        }
        self.print_attr(
            &mut selected,
            Ghost(seen),
            "buck.package",
            QuotedJson::quote_str(target_info.package.as_str()),
        );
        proof {
            seen = seen.push((package_key(), json_string(target_info.package@)));
        }
        let ghost fixed = seen;
        let mut i: usize = 0;
        while i < target_info.attrs.len()
            invariant
                i <= target_info.attrs@.len(),
                seen == fixed + fields_view(target_info.attrs@).take(i as int),
                fields_view(selected@) == self.shown(seen),
            decreases target_info.attrs@.len() - i,
        {
            let attr = &target_info.attrs[i];
            self.print_attr(&mut selected, Ghost(seen), attr.0.as_str(), attr.1.dupe());
            proof {
                seen = seen.push((attr.0@, attr.1@));
            }
            i += 1;
        }
        if self.target_call_stacks {
            match &target_info.call_stack {
                Some(call_stack) => {
                    self.print_attr(
                        &mut selected,
                        Ghost(seen),
                        "buck.target_call_stack",
                        QuotedJson::quote_str(call_stack.as_str()),
                    );
                    proof {
                        seen = seen.push((call_stack_key(), json_string(call_stack@)));
                    }
                },
                None => {},
            }
        }
        assert(seen =~= target_info.fields(self.target_call_stacks));
        self.writer.entry(buffer, &selected);
    }

    /// The fields of the entry for the imports of a file.
    pub open spec fn imports_fields(
        source: Seq<char>,
        imports: Seq<String>,
        package: Option<String>,
    ) -> Seq<(Seq<char>, Seq<char>)> {
        (match package {
            Some(package) => seq![(package_key(), json_string(package@))],
            None => Seq::empty(),
        }) + seq![(file_key(), json_string(source)), (imports_key(), quoted_list(imports))]
    }

    /// The fields of the entry for a package that could not be listed.
    pub open spec fn package_error_fields(package: Seq<char>, error: Seq<char>) -> Seq<
        (Seq<char>, Seq<char>),
    > {
        seq![(package_key(), json_string(package)), (error_key(), json_string(error))]
    }

    pub fn imports(
        &self,
        source: &str,
        imports: &Vec<String>,
        package: Option<String>,
        buffer: &mut String,
    )
        ensures
            final(buffer)@ == old(buffer)@ + self.writer.entry_text(
                Self::imports_fields(source@, imports@, package),
            ),
    {
        let mut fields: Vec<(String, QuotedJson)> = Vec::new();
        if let Some(package) = &package {
            fields.push(("buck.package".to_owned(), QuotedJson::quote_str(package.as_str())));
        }
        fields.push(("buck.file".to_owned(), QuotedJson::quote_str(source)));
        fields.push(("buck.imports".to_owned(), QuotedJson::quote_list(imports)));
        assert(fields_view(fields@) =~= Self::imports_fields(source@, imports@, package));
        self.writer.entry(buffer, &fields);
    }

    /// Writes the entry for a package that could not be listed to `stdout`;
    /// `error` is the error as it is shown when debugging.
    pub fn package_error(&self, package: &str, error: &str, stdout: &mut String, stderr: &mut String)
        ensures
            final(stdout)@ == old(stdout)@ + self.writer.entry_text(
                Self::package_error_fields(package@, error@),
            ),
            final(stderr)@ == old(stderr)@,
    {
        let mut fields: Vec<(String, QuotedJson)> = Vec::new();
        fields.push(("buck.package".to_owned(), QuotedJson::quote_str(package)));
        fields.push(("buck.error".to_owned(), QuotedJson::quote_str(error)));
        assert(fields_view(fields@) =~= Self::package_error_fields(package@, error@));
        self.writer.entry(stdout, &fields);
    }
}

/// Writes nothing but the counters, at the end.
pub struct StatsFormat;

impl StatsFormat {
    /// What `end` appends: the counters by name, and a line end.
    pub open spec fn end_text(stats: &Stats) -> Seq<char> {
        "Stats { errors: "@ + decimal_text(stats.errors as nat) + ", success: "@ + decimal_text(
            stats.success as nat,
        ) + ", targets: "@ + decimal_text(stats.targets as nat) + " }\n"@
    }

    pub fn end(&self, stats: &Stats, buffer: &mut String)
        ensures
            final(buffer)@ == old(buffer)@ + Self::end_text(stats),
    {
        buffer.append("Stats { errors: ");
        buffer.append(decimal(stats.errors).as_str());
        buffer.append(", success: ");
        buffer.append(decimal(stats.success).as_str());
        buffer.append(", targets: ");
        buffer.append(decimal(stats.targets).as_str());
        buffer.append(" }\n");
    }
}

/// The position of the first line feed of `text` at or behind `from`; the
/// length of `text` if there is none.
pub open spec fn line_end(text: Seq<char>, from: int) -> int
    decreases text.len() - from,
{
    if from >= text.len() {
        text.len() as int
    } else if text[from] == '\n' {
        from
    } else {
        line_end(text, from + 1)
    }
}

/// Where the line from `from` to the line feed at `end` stops: before a
/// carriage return that stands directly before the line feed.
pub open spec fn line_stop(text: Seq<char>, from: int, end: int) -> int {
    if from < end && end < text.len() && text[end - 1] == '\r' {
        end - 1
    } else {
        end
    }
}

/// The lines of `text` from position `from` on, each behind `prefix` and
/// closed by a line feed. A line ends at a line feed, or at a carriage return
/// and a line feed, or where the text ends.
pub open spec fn indent_from(prefix: Seq<char>, text: Seq<char>, from: int) -> Seq<char>
    decreases text.len() - from,
{
    if from < 0 || from >= text.len() {
        Seq::empty()
    } else {
        let end = line_end(text, from);
        if from <= end && end < text.len() {
            prefix + text.subrange(from, line_stop(text, from, end)) + seq!['\n'] + indent_from(
                prefix,
                text,
                end + 1,
            )
        } else if from <= end {
            prefix + text.subrange(from, end) + seq!['\n']
        } else {
            Seq::empty()
        }
    }
}

/// The lines of `text`, each behind `prefix` and closed by a line feed.
pub open spec fn indented(prefix: Seq<char>, text: Seq<char>) -> Seq<char> {
    indent_from(prefix, text, 0)
}

pub proof fn lemma_line_end(text: Seq<char>, from: int)
    requires
        0 <= from <= text.len(),
    ensures
        from <= line_end(text, from) <= text.len(),
        line_end(text, from) < text.len() ==> text[line_end(text, from)] == '\n',
        forall|i: int| from <= i < line_end(text, from) ==> text[i] != '\n',
    decreases text.len() - from,
{
    if from < text.len() && text[from] != '\n' {
        lemma_line_end(text, from + 1);
    }
}

/// The lines of `text`, each behind `prefix` and closed by a line feed.
pub fn indent(prefix: &str, text: &str) -> (r: String)
    ensures
        r@ == indented(prefix@, text@),
{
    let mut out = String::new();
    let len = text.unicode_len();
    let mut from: usize = 0;
    while from < len
        invariant
            len == text@.len(),
            from <= len,
            out@ + indent_from(prefix@, text@, from as int) == indented(prefix@, text@),
        decreases len - from,
    {
        let mut end: usize = from;
        while end < len && text.get_char(end) != '\n'
            invariant
                len == text@.len(),
                from <= end <= len,
                line_end(text@, from as int) == line_end(text@, end as int),
            decreases len - end,
        {
            end += 1;
        }
        proof {
            lemma_line_end(text@, from as int);
        }
        let stop = if from < end && end < len && text.get_char(end - 1) == '\r' {
            end - 1
        } else {
            end
        };
        out.append(prefix);
        out.append(text.substring_char(from, stop));
        proof {
            reveal_strlit("\n");
        }
        out.append("\n");
        if end < len {
            from = end + 1;
        } else {
            from = len;
        }
    }
    out
}

/// Writes the call stack of a target, if there is one, indented by two
/// spaces.
pub fn print_target_call_stack_after_target(out: &mut String, call_stack: Option<&str>)
    ensures
        final(out)@ == old(out)@ + match call_stack {
            Some(stack) => indented("  "@, stack@),
            None => Seq::empty(),
        },
{
    match call_stack {
        Some(stack) => {
            out.append(indent("  ", stack).as_str());
        },
        None => {
        },
    }
}

/// Writes targets by their labels, one on a line.
pub struct TargetNameFormat {
    pub target_call_stacks: bool,
    pub target_hash_graph_type: TargetHashGraphType,
}

impl TargetNameFormat {
    /// The line of the target: its label, with its hash where hashes are
    /// asked for. A target without a hash has no line then.
    pub open spec fn label_text(&self, info: &TargetInfo) -> Seq<char> {
        if self.target_hash_graph_type != TargetHashGraphType::Unhashed {
            match info.target_hash {
                Some(hash) => info.label@ + seq![' '] + hash@ + seq!['\n'],
                None => Seq::empty(),
            }
        } else {
            info.label@ + seq!['\n']
        }
    }

    /// What `target` appends for `info`.
    pub open spec fn target_text(&self, info: &TargetInfo) -> Seq<char> {
        self.label_text(info) + match info.call_stack {
            Some(stack) if self.target_call_stacks => indented("  "@, stack@),
            _ => Seq::empty(),
        }
    }

    /// What `package_error` appends to the error stream.
    pub open spec fn package_error_text(package: Seq<char>, error: Seq<char>) -> Seq<char> {
        "Error parsing "@ + package + seq!['\n'] + error + seq!['\n']
    }

    pub fn target(&self, target_info: &TargetInfo, buffer: &mut String)
        ensures
            final(buffer)@ == old(buffer)@ + self.target_text(target_info),
    {
        proof {
            reveal_strlit(" ");
            reveal_strlit("\n");
        }
        match self.target_hash_graph_type {
            TargetHashGraphType::Unhashed => {
                buffer.append(target_info.label.as_str());
                buffer.append("\n");
            },
            _ => {
                match &target_info.target_hash {
                    Some(hash) => {
                        buffer.append(target_info.label.as_str());
                        buffer.append(" ");
                        buffer.append(hash.as_str());
                        buffer.append("\n");
                    },
                    None => {},
                }
            },
        }
        if self.target_call_stacks {
            match &target_info.call_stack {
                Some(stack) => {
                    print_target_call_stack_after_target(buffer, Some(stack.as_str()));
                },
                None => {},
            }
        }
    }

    /// Reports a package that could not be listed, on the error stream;
    /// `error` is the error as it is shown when debugging.
    pub fn package_error(&self, package: &str, error: &str, stdout: &mut String, stderr: &mut String)
        ensures
            final(stdout)@ == old(stdout)@,
            final(stderr)@ == old(stderr)@ + Self::package_error_text(package@, error@),
    {
        proof {
            reveal_strlit("\n");
        }
        stderr.append("Error parsing ");
        stderr.append(package);
        stderr.append("\n");
        stderr.append(error);
        stderr.append("\n");
    }
}

/// A way to write a listing of targets.
pub enum TargetFormatter {
    Json(JsonFormat),
    Stats(StatsFormat),
    Text(TargetNameFormat),
}

impl TargetFormatter {
    /// What stands before the first item of a listing.
    pub open spec fn begin_text(&self) -> Seq<char> {
        match self {
            TargetFormatter::Json(format) => format.writer.begin_text(),
            _ => Seq::empty(),
        }
    }

    /// What stands behind the last item of a listing.
    pub open spec fn end_text(&self, stats: &Stats) -> Seq<char> {
        match self {
            TargetFormatter::Json(format) => format.writer.end_text(),
            TargetFormatter::Stats(_) => StatsFormat::end_text(stats),
            TargetFormatter::Text(_) => Seq::empty(),
        }
    }

    /// What stands between two items of a listing.
    pub open spec fn separator_text(&self) -> Seq<char> {
        match self {
            TargetFormatter::Json(format) => format.writer.separator_text(),
            _ => Seq::empty(),
        }
    }

    /// What is written for one target.
    pub open spec fn target_text(&self, info: &TargetInfo) -> Seq<char> {
        match self {
            TargetFormatter::Json(format) => format.target_text(info),
            TargetFormatter::Stats(_) => Seq::empty(),
            TargetFormatter::Text(format) => format.target_text(info),
        }
    }

    /// What is written for the imports of one file.
    pub open spec fn imports_text(
        &self,
        source: Seq<char>,
        imports: Seq<String>,
        package: Option<String>,
    ) -> Seq<char> {
        match self {
            TargetFormatter::Json(format) => format.writer.entry_text(
                JsonFormat::imports_fields(source, imports, package),
            ),
            _ => Seq::empty(),
        }
    }

    /// What is written for a package that could not be listed: first on the
    /// output stream, second on the error stream.
    pub open spec fn package_error_texts(&self, package: Seq<char>, error: Seq<char>) -> (
        Seq<char>,
        Seq<char>,
    ) {
        match self {
            TargetFormatter::Json(format) => (
                format.writer.entry_text(JsonFormat::package_error_fields(package, error)),
                Seq::empty(),
            ),
            TargetFormatter::Stats(_) => (Seq::empty(), Seq::empty()),
            TargetFormatter::Text(_) => (
                Seq::empty(),
                TargetNameFormat::package_error_text(package, error),
            ),
        }
    }

    /// Whether the listing shows the attribute `name` of a target: only the
    /// JSON formats show attributes, and with patterns only those that a
    /// pattern matches.
    pub open spec fn shows_attribute(&self, name: Seq<char>) -> bool {
        match self {
            TargetFormatter::Json(format) => format.shows(name),
            _ => false,
        }
    }

    /// Whether the listing shows the attribute `name` of a target, so that
    /// its value is worth reading.
    pub fn wants_attribute(&self, name: &str) -> (b: bool)
        ensures
            b == self.shows_attribute(name@),
    {
        match self {
            TargetFormatter::Json(format) => format.is_shown(name),
            _ => false,
        }
    }

    pub fn begin(&self, buffer: &mut String)
        ensures
            final(buffer)@ == old(buffer)@ + self.begin_text(),
    {
        match self {
            TargetFormatter::Json(format) => format.writer.begin(buffer),
            _ => {
            },
        }
    }

    pub fn end(&self, stats: &Stats, buffer: &mut String)
        ensures
            final(buffer)@ == old(buffer)@ + self.end_text(stats),
    {
        match self {
            TargetFormatter::Json(format) => format.writer.end(buffer),
            TargetFormatter::Stats(format) => format.end(stats, buffer),
            TargetFormatter::Text(_) => {
            },
        }
    }

    /// Called between the items of a listing.
    pub fn separator(&self, buffer: &mut String)
        ensures
            final(buffer)@ == old(buffer)@ + self.separator_text(),
    {
        match self {
            TargetFormatter::Json(format) => format.writer.separator(buffer),
            _ => {
            },
        }
    }

    pub fn target(&self, target_info: &TargetInfo, buffer: &mut String)
        ensures
            final(buffer)@ == old(buffer)@ + self.target_text(target_info),
    {
        match self {
            TargetFormatter::Json(format) => format.target(target_info, buffer),
            TargetFormatter::Stats(_) => {
            },
            TargetFormatter::Text(format) => format.target(target_info, buffer),
        }
    }

    pub fn imports(
        &self,
        source: &str,
        imports: &Vec<String>,
        package: Option<String>,
        buffer: &mut String,
    )
        ensures
            final(buffer)@ == old(buffer)@ + self.imports_text(source@, imports@, package),
    {
        match self {
            TargetFormatter::Json(format) => format.imports(source, imports, package, buffer),
            _ => {
            },
        }
    }

    pub fn package_error(&self, package: &str, error: &str, stdout: &mut String, stderr: &mut String)
        ensures
            final(stdout)@ == old(stdout)@ + self.package_error_texts(package@, error@).0,
            final(stderr)@ == old(stderr)@ + self.package_error_texts(package@, error@).1,
    {
        match self {
            TargetFormatter::Json(format) => {
                format.package_error(package, error, stdout, stderr);
            },
            TargetFormatter::Stats(_) => {
            },
            TargetFormatter::Text(format) => {
                format.package_error(package, error, stdout, stderr);
            },
        }
    }
}

/// Whether `format` is one of the two JSON formats.
pub open spec fn is_json(format: OutputFormat) -> bool {
    format == OutputFormat::Json || format == OutputFormat::JsonLines
}

/// The formatter for a request; `output_format` is none where the request
/// holds a number that names no format. Attribute patterns go with the JSON
/// formats only, and have to be valid regular expressions.
pub fn create_formatter(output_format: Option<OutputFormat>, other: &FormatterOptions) -> (r:
    Result<TargetFormatter, FormatterError>)
    requires
        output_format == Some(OutputFormat::Text) && other.output_attributes@.len() == 0
            ==> other.target_hash_graph_type is Some,
    ensures
        match r {
            Ok(TargetFormatter::Stats(_)) => output_format == Some(OutputFormat::Stats)
                && other.output_attributes@.len() == 0,
            Ok(TargetFormatter::Text(format)) => {
                &&& output_format == Some(OutputFormat::Text)
                &&& other.output_attributes@.len() == 0
                &&& format.target_call_stacks == other.target_call_stacks
                &&& other.target_hash_graph_type == Some(format.target_hash_graph_type)
            },
            Ok(TargetFormatter::Json(format)) => {
                &&& output_format matches Some(chosen) && is_json(chosen)
                &&& format.writer.json_lines == (output_format == Some(OutputFormat::JsonLines))
                &&& format.target_call_stacks == other.target_call_stacks
                &&& format.attr_inspect_opts == if other.include_default_attributes {
                    AttrInspectOptions::All
                } else {
                    AttrInspectOptions::DefinedOnly
                }
                &&& format.filter() == if other.output_attributes@.len() == 0 {
                    None::<Set<Seq<char>>>
                } else {
                    compiled(texts(other.output_attributes@))
                }
                &&& other.output_attributes@.len() != 0 ==> format.attributes is Some
            },
            Err(FormatterError::InvalidOutputFormat) => output_format is None,
            Err(FormatterError::AttrsOnlyWithJson) => {
                &&& output_format matches Some(chosen) && !is_json(chosen)
                &&& other.output_attributes@.len() != 0
            },
            Err(FormatterError::OutputFormatNotSet) => output_format == Some(OutputFormat::Unknown)
                && other.output_attributes@.len() == 0,
            Err(FormatterError::InvalidAttributePattern { .. }) => {
                &&& output_format matches Some(chosen) && is_json(chosen)
                &&& other.output_attributes@.len() != 0
                &&& compiled(texts(other.output_attributes@)) is None
            },
        },
{
    let output_format = match output_format {
        Some(output_format) => output_format,
        None => {
            return Err(FormatterError::InvalidOutputFormat);
        },
    };
    match output_format {
        OutputFormat::Json | OutputFormat::JsonLines => {},
        _ => {
            if other.output_attributes.len() != 0 {
                return Err(FormatterError::AttrsOnlyWithJson);
            }
        },
    }
    match output_format {
        OutputFormat::Unknown => Err(FormatterError::OutputFormatNotSet),
        OutputFormat::Stats => Ok(TargetFormatter::Stats(StatsFormat)),
        OutputFormat::Text => {
            match other.target_hash_graph_type {
                Some(target_hash_graph_type) => Ok(
                    TargetFormatter::Text(
                        TargetNameFormat {
                            target_call_stacks: other.target_call_stacks,
                            target_hash_graph_type,
                        },
                    ),
                ),
                // Not reached: the text format is asked for with a graph type.
                None => Err(FormatterError::OutputFormatNotSet),
            }
        },
        OutputFormat::Json | OutputFormat::JsonLines => {
            let attributes = if other.output_attributes.len() == 0 {
                None
            } else {
                match regex_set_new(&other.output_attributes) {
                    Ok(set) => Some(set),
                    Err(error) => {
                        return Err(
                            FormatterError::InvalidAttributePattern {
                                message: regex_error_message(&error),
                            },
                        );
                    },
                }
            };
            Ok(
                TargetFormatter::Json(
                    JsonFormat {
                        attributes,
                        attr_inspect_opts: if other.include_default_attributes {
                            AttrInspectOptions::All
                        } else {
                            AttrInspectOptions::DefinedOnly
                        },
                        target_call_stacks: other.target_call_stacks,
                        writer: JsonWriter { json_lines: output_format == OutputFormat::JsonLines },
                    },
                ),
            )
        },
    }
}

} // verus!
