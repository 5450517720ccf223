use vstd::prelude::*;
use vstd::string::StringExecFns;
use indexmap::IndexMap;
use sorted_vector_map::SortedVectorMap;

verus! {

#[verifier::external_type_specification]
#[verifier::external_body]
#[verifier::reject_recursive_types(Q)]
#[verifier::reject_recursive_types(W)]
#[verifier::reject_recursive_types(H)]
pub struct ExIndexMap<Q, W, H>(IndexMap<Q, W, H>);

/// The entries of a map of declared outputs, in the order of the map: the
/// name of each output, and whether the output itself is to be created (and
/// not only the directory above it).
pub uninterp spec fn declared(map: IndexMap<String, bool>) -> Seq<(Seq<char>, bool)>;

/// The position of the first entry of `entries` with the name `name`; the
/// length of `entries` if there is none.
pub open spec fn position_of(entries: Seq<(Seq<char>, bool)>, name: Seq<char>) -> int
    decreases entries.len(),
{
    if entries.len() == 0 {
        0
    } else if entries[0].0 == name {
        0
    } else {
        1 + position_of(entries.drop_first(), name)
    }
}

/// The entries after `name` was declared with `create`: an entry with this
/// name keeps its place and gets the new value, a new name goes to the end.
pub open spec fn declare(entries: Seq<(Seq<char>, bool)>, name: Seq<char>, create: bool) -> Seq<
    (Seq<char>, bool),
> {
    let at = position_of(entries, name);
    if 0 <= at < entries.len() {
        entries.update(at, (name, create))
    } else {
        entries.push((name, create))
    }
}

/// Calls `IndexMap::new`: a map without entries.
#[verifier::external_body]
fn index_map_new() -> (map: IndexMap<String, bool>)
    ensures
        declared(map) == Seq::<(Seq<char>, bool)>::empty(),
{
    IndexMap::new()
}

/// Calls `IndexMap::insert`. A key that the map holds keeps its place in the
/// order and gets the new value; a new key goes to the end.
#[verifier::external_body]
fn index_map_insert(map: &mut IndexMap<String, bool>, name: String, create: bool)
    ensures
        declared(*final(map)) == declare(declared(*old(map)), name@, create),
{
    map.insert(name, create);
}

#[verifier::external_type_specification]
#[verifier::external_body]
#[verifier::reject_recursive_types(Q)]
#[verifier::reject_recursive_types(W)]
pub struct ExSortedVectorMap<Q, W>(SortedVectorMap<Q, W>);

/// What a sorted map of variables holds: the value under each name.
pub uninterp spec fn variables(map: SortedVectorMap<String, String>) -> Map<Seq<char>, Seq<char>>;

/// No variables.
pub open spec fn no_variables() -> Map<Seq<char>, Seq<char>> {
    Map::empty()
}

/// Calls `SortedVectorMap::new`: a map without entries.
#[verifier::external_body]
fn sorted_map_new() -> (env: SortedVectorMap<String, String>)
    ensures
        variables(env) == no_variables(),
{
    SortedVectorMap::new()
}

/// The variables `before` with `value` under `name`, in place of what stood
/// under this name.
pub open spec fn with_variable(
    before: Map<Seq<char>, Seq<char>>,
    name: Seq<char>,
    value: Seq<char>,
) -> Map<Seq<char>, Seq<char>> {
    before.insert(name, value)
}

/// Calls `SortedVectorMap::insert`: the map holds `value` under `name`
/// afterwards, in place of what it held under this name, and all else as
/// before.
#[verifier::external_body]
fn sorted_map_insert(env: &mut SortedVectorMap<String, String>, name: String, value: String)
    ensures
        variables(*final(env)) == with_variable(variables(*old(env)), name@, value@),
{
    env.insert(name, value);
}

/// The variables with the names `names` and the values `values`, position by
/// position; of two with one name the later counts.
pub open spec fn variables_of(names: Seq<Seq<char>>, values: Seq<Seq<char>>) -> Map<
    Seq<char>,
    Seq<char>,
>
    decreases names.len(),
{
    if names.len() == 0 || values.len() != names.len() {
        no_variables()
    } else {
        with_variable(
            variables_of(names.drop_last(), values.drop_last()),
            names.last(),
            values.last(),
        )
    }
}

/// Where no name stands twice, each variable keeps its own value: the map
/// holds exactly the names, and under each the value at its position.
pub proof fn lemma_variables_of_distinct_names(names: Seq<Seq<char>>, values: Seq<Seq<char>>)
    requires
        names.no_duplicates(),
        values.len() == names.len(),
    ensures
        forall|name: Seq<char>|
            variables_of(names, values).dom().contains(name) <==> names.contains(name),
        forall|i: int|
            0 <= i < names.len() ==> variables_of(names, values)[#[trigger] names[i]] == values[i],
    decreases names.len(),
{
    if names.len() > 0 {
        let head = names.drop_last();
        let rest = values.drop_last();
        lemma_variables_of_distinct_names(head, rest);
        assert forall|name: Seq<char>|
            variables_of(names, values).dom().contains(name) <==> names.contains(name) by {
            if head.contains(name) {
                let at = choose|at: int| 0 <= at < head.len() && head[at] == name;
                assert(names[at] == name);
            }
            if names.contains(name) && name != names.last() {
                let at = choose|at: int| 0 <= at < names.len() && names[at] == name;
                assert(head[at] == name);
            }
        }
        assert forall|i: int| 0 <= i < names.len() implies variables_of(
            names,
            values,
        )[#[trigger] names[i]] == values[i] by {
            if i < names.len() - 1 {
                assert(head[i] == names[i]);
            }
        }
    }
}

/// The names of the variables `entries`.
pub open spec fn names_of(entries: Seq<(String, ArgValue)>) -> Seq<Seq<char>> {
    entries.map_values(|entry: (String, ArgValue)| entry.0@)
}

/// `format` with each `{}` in it replaced by `s`, from the left.
pub open spec fn replaced(format: Seq<char>, s: Seq<char>) -> Seq<char>
    decreases format.len(),
{
    if format.len() < 2 {
        format
    } else if format[0] == '{' && format[1] == '}' {
        s + replaced(format.skip(2), s)
    } else {
        seq![format[0]] + replaced(format.skip(1), s)
    }
}

/// Calls `str::replace` with the pattern `{}`: every `{}` in `format` gives
/// way to `s`.
#[verifier::external_body]
fn replace_placeholder(format: &str, s: &str) -> (r: String)
    ensures
        r@ == replaced(format@, s@),
{
    format.replace("{}", s)
}

/// The texts of `strings`.
pub open spec fn words(strings: Seq<String>) -> Seq<Seq<char>> {
    strings.map_values(|s: String| s@)
}

/// The texts `items` with a space between them.
pub open spec fn space_separated(items: Seq<Seq<char>>) -> Seq<char>
    decreases items.len(),
{
    if items.len() == 0 {
        Seq::empty()
    } else if items.len() == 1 {
        items[0]
    } else {
        space_separated(items.drop_last()) + seq![' '] + items.last()
    }
}

/// The texts `items` with a space between them.
pub fn join_with_spaces(items: &Vec<String>) -> (r: String)
    ensures
        r@ == space_separated(words(items@)),
{
    let ghost all = words(items@);
    let mut out = String::new();
    let mut i: usize = 0;
    while i < items.len()
        invariant
            i <= items@.len(),
            all == words(items@),
            out@ == space_separated(all.take(i as int)),
        decreases items@.len() - i,
    {
        let ghost now = all.take(i + 1);
        assert(now.drop_last() =~= all.take(i as int));
        if i != 0 {
            proof {
                reveal_strlit(" ");
            }
            out.append(" ");
        }
        out.append(items[i].as_str());
        i += 1;
    }
    assert(all.take(i as int) =~= all);
    out
}

/// A value that is given to a test as it stands, or that refers to a part of
/// the test's own description.
pub enum ExternalRunnerSpecValue {
    Verbatim(String),
    /// The command-line argument of the test with this number, counting
    /// those that are not literals.
    ArgHandle(usize),
    /// The environment variable of the test with this name.
    EnvHandle(String),
}

/// An output that a command announces.
pub struct DeclaredOutput {
    pub name: String,
    /// Where the output will be, as the command line is to name it.
    pub path: String,
}

pub enum ArgValueContent {
    ExternalRunnerSpecValue(ExternalRunnerSpecValue),
    DeclaredOutput(DeclaredOutput),
}

/// One argument of a command, before expansion.
pub struct ArgValue {
    pub content: ArgValueContent,
    /// A pattern whose `{}` each word of the expansion is put into.
    pub format: Option<String>,
}

/// Why a command could not be expanded.
#[derive(Debug, Clone, PartialEq, Eq)]
pub enum ExpandError {
    InvalidArgHandle(usize),
    InvalidEnvHandle(String),
}

/// An `ExpandError`, in specifications.
pub enum ExpandFailure {
    InvalidArgHandle(usize),
    InvalidEnvHandle(Seq<char>),
}

impl View for ExpandError {
    type V = ExpandFailure;

    open spec fn view(&self) -> ExpandFailure {
        match self {
            ExpandError::InvalidArgHandle(handle) => ExpandFailure::InvalidArgHandle(*handle),
            ExpandError::InvalidEnvHandle(name) => ExpandFailure::InvalidEnvHandle(name@),
        }
    }
}

/// The words of the last entry of `env` with the name `name`.
pub open spec fn env_words(env: Seq<(String, Vec<String>)>, name: Seq<char>) -> Option<
    Seq<Seq<char>>,
>
    decreases env.len(),
{
    if env.len() == 0 {
        None
    } else if env.last().0@ == name {
        Some(words(env.last().1@))
    } else {
        env_words(env.drop_last(), name)
    }
}

/// The position of the last entry of `env` with the name `name`.
pub open spec fn env_position(env: Seq<(String, Vec<String>)>, name: Seq<char>) -> Option<int>
    decreases env.len(),
{
    if env.len() == 0 {
        None
    } else if env.last().0@ == name {
        Some(env.len() - 1)
    } else {
        env_position(env.drop_last(), name)
    }
}

/// A name has a position among the variables exactly if it has words, and
/// the words are those at the position.
pub proof fn lemma_env_position(env: Seq<(String, Vec<String>)>, name: Seq<char>)
    ensures
        match env_position(env, name) {
            Some(at) => 0 <= at < env.len() && env[at].0@ == name && env_words(env, name) == Some(
                words(env[at].1@),
            ),
            None => env_words(env, name) is None,
        },
    decreases env.len(),
{
    if env.len() != 0 && env.last().0@ != name {
        lemma_env_position(env.drop_last(), name);
        match env_position(env.drop_last(), name) {
            Some(at) => {
            },
            None => {},
        }
    }
}

/// What an argument of a command stands on.
#[derive(Debug, Clone, Copy, PartialEq, Eq, Structural)]
pub enum Lookup {
    /// On nothing but itself.
    Verbatim,
    /// On the command-line argument of the test with this number.
    Arg(usize),
    /// On the environment variable of the test at this position.
    Env(usize),
    /// On the place of an output.
    Output,
}

/// The word `s` inside `format`, or as it is without a format.
pub open spec fn formatted(format: Option<String>, s: Seq<char>) -> Seq<char> {
    match format {
        Some(format) => replaced(format@, s),
        None => s,
    }
}

/// What an expansion has come to: the words so far, the outputs declared so
/// far, and the failure that ended it, if one did.
pub ghost struct Expansion {
    pub cli: Seq<Seq<char>>,
    pub outputs: Seq<(Seq<char>, bool)>,
    pub failure: Option<ExpandFailure>,
}

/// Expands the arguments and the environment of a command for a test.
pub struct Execute2RequestExpander {
    /// The command-line arguments of the test that handles can name, each as
    /// the words it stands for.
    pub cli_args_for_interpolation: Vec<Vec<String>>,
    /// The environment variables of the test, each as the words it stands
    /// for.
    pub env_for_interpolation: Vec<(String, Vec<String>)>,
    pub cmd: Vec<ArgValue>,
    /// The variables of the command, each with its name. Where a name
    /// stands twice, the later entry gives the value.
    pub env: Vec<(String, ArgValue)>,
}

impl Execute2RequestExpander {
    /// The words that `value` stands for, before formatting; or why it stands
    /// for nothing.
    pub open spec fn resolved(&self, value: ArgValue) -> Result<Seq<Seq<char>>, ExpandFailure> {
        match value.content {
            ArgValueContent::ExternalRunnerSpecValue(ExternalRunnerSpecValue::Verbatim(v)) => Ok(
                seq![v@],
            ),
            ArgValueContent::ExternalRunnerSpecValue(ExternalRunnerSpecValue::ArgHandle(h)) => {
                if h < self.cli_args_for_interpolation@.len() {
                    Ok(words(self.cli_args_for_interpolation@[h as int]@))
                } else {
                    Err(ExpandFailure::InvalidArgHandle(h))
                }
            },
            ArgValueContent::ExternalRunnerSpecValue(ExternalRunnerSpecValue::EnvHandle(name)) => {
                match env_words(self.env_for_interpolation@, name@) {
                    Some(found) => Ok(found),
                    None => Err(ExpandFailure::InvalidEnvHandle(name@)),
                }
            },
            ArgValueContent::DeclaredOutput(output) => Ok(seq![output.path@]),
        }
    }

    /// What `value` stands on; nothing where it names an argument or a
    /// variable that the test does not have.
    pub open spec fn lookup_of(&self, value: ArgValue) -> Option<Lookup> {
        match value.content {
            ArgValueContent::ExternalRunnerSpecValue(ExternalRunnerSpecValue::Verbatim(_)) => Some(
                Lookup::Verbatim,
            ),
            ArgValueContent::ExternalRunnerSpecValue(ExternalRunnerSpecValue::ArgHandle(h)) => {
                if h < self.cli_args_for_interpolation@.len() {
                    Some(Lookup::Arg(h))
                } else {
                    None
                }
            },
            ArgValueContent::ExternalRunnerSpecValue(ExternalRunnerSpecValue::EnvHandle(name)) => {
                match env_position(self.env_for_interpolation@, name@) {
                    Some(at) => Some(Lookup::Env(at as usize)),
                    None => None,
                }
            },
            ArgValueContent::DeclaredOutput(_) => Some(Lookup::Output),
        }
    }

    /// What the arguments `values` stand on, one after the other, up to the
    /// first that names what the test does not have.
    pub open spec fn lookups_of(&self, values: Seq<ArgValue>) -> Seq<Lookup>
        decreases values.len(),
    {
        if values.len() == 0 {
            Seq::empty()
        } else {
            let before = self.lookups_of(values.drop_last());
            if before.len() < values.len() - 1 {
                before
            } else {
                match self.lookup_of(values.last()) {
                    Some(lookup) => before.push(lookup),
                    None => before,
                }
            }
        }
    }

    /// The arguments of the command, and behind them those of the variables.
    pub open spec fn all_values(&self) -> Seq<ArgValue> {
        self.cmd@ + self.env@.map_values(|entry: (String, ArgValue)| entry.1)
    }

    /// An argument stands on something exactly if it has words.
    pub proof fn lemma_lookup_known(&self, value: ArgValue)
        ensures
            self.lookup_of(value) is Some <==> self.resolved(value) is Ok,
    {
        match value.content {
            ArgValueContent::ExternalRunnerSpecValue(ExternalRunnerSpecValue::EnvHandle(name)) => {
                lemma_env_position(self.env_for_interpolation@, name@);
            },
            _ => {},
        }
    }

    /// The position of the last environment variable of the test with the
    /// name `name`.
    fn position(&self, name: &String) -> (r: Option<usize>)
        ensures
            match r {
                Some(at) => env_position(self.env_for_interpolation@, name@) == Some(at as int),
                None => env_position(self.env_for_interpolation@, name@) is None,
            },
    {
        let mut i: usize = self.env_for_interpolation.len();
        assert(self.env_for_interpolation@.take(i as int) =~= self.env_for_interpolation@);
        while i > 0
            invariant
                i <= self.env_for_interpolation@.len(),
                env_position(self.env_for_interpolation@, name@) == env_position(
                    self.env_for_interpolation@.take(i as int),
                    name@,
                ),
            decreases i,
        {
            let ghost head = self.env_for_interpolation@.take(i as int);
            assert(head.drop_last() =~= self.env_for_interpolation@.take(i - 1));
            if self.env_for_interpolation[i - 1].0 == *name {
                return Some(i - 1);
            }
            i -= 1;
        }
        None
    }

    /// What `value` stands on.
    fn lookup(&self, value: &ArgValue) -> (r: Option<Lookup>)
        ensures
            r == self.lookup_of(*value),
    {
        match &value.content {
            ArgValueContent::ExternalRunnerSpecValue(ExternalRunnerSpecValue::Verbatim(_)) => Some(
                Lookup::Verbatim,
            ),
            ArgValueContent::ExternalRunnerSpecValue(ExternalRunnerSpecValue::ArgHandle(h)) => {
                if *h < self.cli_args_for_interpolation.len() {
                    Some(Lookup::Arg(*h))
                } else {
                    None
                }
            },
            ArgValueContent::ExternalRunnerSpecValue(ExternalRunnerSpecValue::EnvHandle(name)) => {
                match self.position(name) {
                    Some(at) => Some(Lookup::Env(at)),
                    None => None,
                }
            },
            ArgValueContent::DeclaredOutput(_) => Some(Lookup::Output),
        }
    }

    /// What the arguments of the command and of the variables stand on, in
    /// their order, up to the first that names an argument or a variable that
    /// the test does not have: what has to be at hand before `expand` is
    /// called, and no more.
    pub fn lookups(&self) -> (r: Vec<Lookup>)
        ensures
            r@ == self.lookups_of(self.all_values()),
    {
        let ghost all = self.all_values();
        let mut found: Vec<Lookup> = Vec::new();
        let mut i: usize = 0;
        while i < self.cmd.len()
            invariant
                i <= self.cmd@.len(),
                all == self.all_values(),
                found@.len() == i,
                found@ == self.lookups_of(all.take(i as int)),
            decreases self.cmd@.len() - i,
        {
            let ghost now = all.take(i + 1);
            assert(now.drop_last() =~= all.take(i as int));
            match self.lookup(&self.cmd[i]) {
                Some(lookup) => {
                    found.push(lookup);
                },
                None => {
                    proof {
                        self.lemma_lookups_stop(now, all);
                    }
                    return found;
                },
            }
            i += 1;
        }
        let mut j: usize = 0;
        while j < self.env.len()
            invariant
                j <= self.env@.len(),
                all == self.all_values(),
                found@.len() == self.cmd@.len() + j,
                found@ == self.lookups_of(all.take(self.cmd@.len() + j)),
            decreases self.env@.len() - j,
        {
            let ghost now = all.take(self.cmd@.len() + j + 1);
            assert(now.drop_last() =~= all.take(self.cmd@.len() + j));
            match self.lookup(&self.env[j].1) {
                Some(lookup) => {
                    found.push(lookup);
                },
                None => {
                    proof {
                        self.lemma_lookups_stop(now, all);
                    }
                    return found;
                },
            }
            j += 1;
        }
        assert(all.take(self.cmd@.len() + j) =~= all);
        found
    }

    /// Once an argument names what the test does not have, the arguments
    /// behind it add nothing.
    proof fn lemma_lookups_stop(&self, head: Seq<ArgValue>, values: Seq<ArgValue>)
        requires
            head.len() <= values.len(),
            head == values.take(head.len() as int),
            self.lookups_of(head).len() < head.len(),
        ensures
            self.lookups_of(values) == self.lookups_of(head),
        decreases values.len(),
    {
        if head.len() < values.len() {
            assert(values.drop_last().take(head.len() as int) =~= head);
            self.lemma_lookups_stop(head, values.drop_last());
        } else {
            assert(head =~= values);
        }
    }

    /// The expansion `before`, continued by `value`: its words are added,
    /// each inside the format of the value, and an output that it announces
    /// is declared, with only the directory above it to be created.
    pub open spec fn step(&self, before: Expansion, value: ArgValue) -> Expansion {
        if before.failure is Some {
            before
        } else {
            match self.resolved(value) {
                Err(failure) => Expansion { failure: Some(failure), ..before },
                Ok(found) => Expansion {
                    cli: before.cli + found.map_values(|w: Seq<char>| formatted(value.format, w)),
                    outputs: match value.content {
                        ArgValueContent::DeclaredOutput(output) => declare(
                            before.outputs,
                            output.name@,
                            false,
                        ),
                        _ => before.outputs,
                    },
                    failure: None,
                },
            }
        }
    }

    /// The expansion of the arguments `values`, one after the other, up to
    /// the first that fails.
    pub open spec fn run(&self, start: Expansion, values: Seq<ArgValue>) -> Expansion
        decreases values.len(),
    {
        if values.len() == 0 {
            start
        } else {
            self.step(self.run(start, values.drop_last()), values.last())
        }
    }

    /// Where an expansion starts: with no words and the outputs `outputs`.
    pub open spec fn start(outputs: Seq<(Seq<char>, bool)>) -> Expansion {
        Expansion { cli: Seq::empty(), outputs, failure: None }
    }

    /// The expansion of the variables `entries`: each variable alone, its
    /// words joined by spaces into one value. The words of the result are
    /// these values.
    pub open spec fn run_env(&self, start: Expansion, entries: Seq<(String, ArgValue)>) -> Expansion
        decreases entries.len(),
    {
        if entries.len() == 0 {
            start
        } else {
            let before = self.run_env(start, entries.drop_last());
            if before.failure is Some {
                before
            } else {
                let one = self.step(Self::start(before.outputs), entries.last().1);
                Expansion {
                    cli: if one.failure is Some {
                        before.cli
                    } else {
                        before.cli.push(space_separated(one.cli))
                    },
                    outputs: one.outputs,
                    failure: one.failure,
                }
            }
        }
    }

    /// Adds the expansion of `value` to `cli`.
    fn expand_arg_value(
        &self,
        cli: &mut Vec<String>,
        declared_outputs: &mut IndexMap<String, bool>,
        value: &ArgValue,
    ) -> (r: Result<(), ExpandError>)
        ensures
            ({
                let before = Expansion {
                    cli: words(old(cli)@),
                    outputs: declared(*old(declared_outputs)),
                    failure: None,
                };
                let after = self.step(before, *value);
                &&& words(final(cli)@) == after.cli
                &&& declared(*final(declared_outputs)) == after.outputs
                &&& match r {
                    Ok(()) => after.failure is None,
                    Err(e) => after.failure == Some(e@),
                }
            }),
    {
        match &value.content {
            ArgValueContent::ExternalRunnerSpecValue(ExternalRunnerSpecValue::Verbatim(v)) => {
                self.push_arg(cli, &value.format, v.as_str());
                Ok(())
            },
            ArgValueContent::ExternalRunnerSpecValue(ExternalRunnerSpecValue::ArgHandle(h)) => {
                if *h < self.cli_args_for_interpolation.len() {
                    self.push_args(cli, &value.format, &self.cli_args_for_interpolation[*h]);
                    Ok(())
                } else {
                    Err(ExpandError::InvalidArgHandle(*h))
                }
            },
            ArgValueContent::ExternalRunnerSpecValue(ExternalRunnerSpecValue::EnvHandle(name)) => {
                match self.env_arg(name) {
                    Some(found) => {
                        self.push_args(cli, &value.format, found);
                        Ok(())
                    },
                    None => Err(ExpandError::InvalidEnvHandle(name.clone())),
                }
            },
            ArgValueContent::DeclaredOutput(output) => {
                self.push_arg(cli, &value.format, output.path.as_str());
                index_map_insert(declared_outputs, output.name.clone(), false);
                Ok(())
            },
        }
    }

    /// The words of the last environment variable of the test with the name
    /// `name`.
    fn env_arg(&self, name: &String) -> (r: Option<&Vec<String>>)
        ensures
            match r {
                Some(found) => env_words(self.env_for_interpolation@, name@) == Some(words(found@)),
                None => env_words(self.env_for_interpolation@, name@) is None,
            },
    {
        proof {
            lemma_env_position(self.env_for_interpolation@, name@);
        }
        match self.position(name) {
            Some(at) => Some(&self.env_for_interpolation[at].1),
            None => None,
        }
    }

    /// Adds the word `s` to `cli`, inside `format` if there is one.
    fn push_arg(&self, cli: &mut Vec<String>, format: &Option<String>, s: &str)
        ensures
            final(cli)@.len() == old(cli)@.len() + 1,
            words(final(cli)@) == words(old(cli)@).push(formatted(*format, s@)),
    {
        let word = match format {
            Some(format) => replace_placeholder(format.as_str(), s),
            None => s.to_owned(),
        };
        cli.push(word);
    }

    /// Adds the words `found` to `cli`, each inside `format` if there is one.
    fn push_args(&self, cli: &mut Vec<String>, format: &Option<String>, found: &Vec<String>)
        ensures
            words(final(cli)@) == words(old(cli)@) + words(found@).map_values(
                |w: Seq<char>| formatted(*format, w),
            ),
    {
        let ghost target = words(found@).map_values(|w: Seq<char>| formatted(*format, w));
        let mut i: usize = 0;
        while i < found.len()
            invariant
                i <= found@.len(),
                target == words(found@).map_values(|w: Seq<char>| formatted(*format, w)),
                words(cli@) == words(old(cli)@) + target.take(i as int),
            decreases found@.len() - i,
        {
            self.push_arg(cli, format, found[i].as_str());
            i += 1;
        }
    }

    /// Expands the command and the environment. Returns the words of the
    /// command and the variables with their values, sorted by name, and
    /// declares in `declared_outputs` the outputs that the arguments announce.
    /// Fails on the first argument that names an argument or a variable that
    /// the test does not have; the outputs announced before it stay declared.
    pub fn expand(self, declared_outputs: &mut IndexMap<String, bool>) -> (r: Result<
        (Vec<String>, SortedVectorMap<String, String>),
        ExpandError,
    >)
        ensures
            ({
                let cmd = self.run(Self::start(declared(*old(declared_outputs))), self.cmd@);
                let env = self.run_env(Self::start(cmd.outputs), self.env@);
                match r {
                    Ok((expanded_cmd, expanded_env)) => {
                        &&& cmd.failure is None
                        &&& env.failure is None
                        &&& words(expanded_cmd@) == cmd.cli
                        &&& env.cli.len() == self.env@.len()
                        &&& variables(expanded_env) == variables_of(names_of(self.env@), env.cli)
                        &&& declared(*final(declared_outputs)) == env.outputs
                    },
                    Err(e) => if cmd.failure is Some {
                        cmd.failure == Some(e@) && declared(*final(declared_outputs))
                            == cmd.outputs
                    } else {
                        env.failure == Some(e@) && declared(*final(declared_outputs))
                            == env.outputs
                    },
                }
            }),
    {
        let ghost begin = Self::start(declared(*declared_outputs));
        let mut expanded_cmd: Vec<String> = Vec::new();
        let mut i: usize = 0;
        while i < self.cmd.len()
            invariant
                i <= self.cmd@.len(),
                begin == Self::start(declared(*old(declared_outputs))),
                ({
                    let so_far = self.run(begin, self.cmd@.take(i as int));
                    &&& so_far.failure is None
                    &&& so_far.cli == words(expanded_cmd@)
                    &&& so_far.outputs == declared(*declared_outputs)
                }),
            decreases self.cmd@.len() - i,
        {
            let ghost now = self.cmd@.take(i + 1);
            assert(now.drop_last() =~= self.cmd@.take(i as int));
            let done = self.expand_arg_value(&mut expanded_cmd, declared_outputs, &self.cmd[i]);
            match done {
                Ok(()) => {},
                Err(e) => {
                    proof {
                        self.lemma_failure_stays(begin, now, self.cmd@);
                    }
                    return Err(e);
                },
            }
            i += 1;
        }
        assert(self.cmd@.take(i as int) =~= self.cmd@);
        let ghost cmd = self.run(begin, self.cmd@);
        let ghost env_begin = Self::start(cmd.outputs);
        let mut expanded_env = sorted_map_new();
        let mut j: usize = 0;
        while j < self.env.len()
            invariant
                j <= self.env@.len(),
                begin == Self::start(declared(*old(declared_outputs))),
                cmd == self.run(begin, self.cmd@),
                cmd.failure is None,
                env_begin == Self::start(cmd.outputs),
                ({
                    let so_far = self.run_env(env_begin, self.env@.take(j as int));
                    &&& so_far.failure is None
                    &&& so_far.cli.len() == j
                    &&& so_far.outputs == declared(*declared_outputs)
                    &&& variables(expanded_env) == variables_of(
                        names_of(self.env@.take(j as int)),
                        so_far.cli,
                    )
                }),
            decreases self.env@.len() - j,
        {
            let ghost now = self.env@.take(j + 1);
            assert(now.drop_last() =~= self.env@.take(j as int));
            let mut one: Vec<String> = Vec::new();
            let done = self.expand_arg_value(&mut one, declared_outputs, &self.env[j].1);
            match done {
                Ok(()) => {},
                Err(e) => {
                    proof {
                        self.lemma_env_failure_stays(env_begin, now, self.env@);
                    }
                    return Err(e);
                },
            }
            sorted_map_insert(&mut expanded_env, self.env[j].0.clone(), join_with_spaces(&one));
            proof {
                let before = self.run_env(env_begin, self.env@.take(j as int));
                let after = self.run_env(env_begin, now);
                assert(names_of(now).drop_last() =~= names_of(self.env@.take(j as int)));
                assert(after.cli.drop_last() =~= before.cli);
            }
            j += 1;
        }
        assert(self.env@.take(j as int) =~= self.env@);
        Ok((expanded_cmd, expanded_env))
    }

    /// An expansion that has failed on the first of `values` stays as it is
    /// on all of them.
    proof fn lemma_failure_stays(&self, start: Expansion, head: Seq<ArgValue>, values: Seq<ArgValue>)
        requires
            head.len() <= values.len(),
            head == values.take(head.len() as int),
            self.run(start, head).failure is Some,
        ensures
            self.run(start, values) == self.run(start, head),
        decreases values.len(),
    {
        if head.len() < values.len() {
            assert(values.drop_last().take(head.len() as int) =~= head);
            self.lemma_failure_stays(start, head, values.drop_last());
        } else {
            assert(head =~= values);
        }
    }

    /// As `lemma_failure_stays`, for the variables.
    proof fn lemma_env_failure_stays(
        &self,
        start: Expansion,
        head: Seq<(String, ArgValue)>,
        entries: Seq<(String, ArgValue)>,
    )
        requires
            head.len() <= entries.len(),
            head == entries.take(head.len() as int),
            self.run_env(start, head).failure is Some,
        ensures
            self.run_env(start, entries) == self.run_env(start, head),
        decreases entries.len(),
    {
        if head.len() < entries.len() {
            assert(entries.drop_last().take(head.len() as int) =~= head);
            self.lemma_env_failure_stays(start, head, entries.drop_last());
        } else {
            assert(head =~= entries);
        }
    }
}

/// The outputs `names`, each declared in turn as one that is itself to be
/// created.
pub open spec fn declare_all(entries: Seq<(Seq<char>, bool)>, names: Seq<String>) -> Seq<
    (Seq<char>, bool),
>
    decreases names.len(),
{
    if names.len() == 0 {
        entries
    } else {
        declare(declare_all(entries, names.drop_last()), names.last()@, true)
    }
}

/// A map without declared outputs.
pub fn no_declared_outputs() -> (map: IndexMap<String, bool>)
    ensures
        declared(map) == Seq::<(Seq<char>, bool)>::empty(),
{
    index_map_new()
}

/// Declares the directories `names` that are to be created before the
/// command runs. One that an argument announced before is from now on to be
/// created itself.
pub fn declare_pre_created(declared_outputs: &mut IndexMap<String, bool>, names: &Vec<String>)
    ensures
        declared(*final(declared_outputs)) == declare_all(declared(*old(declared_outputs)), names@),
{
    let mut i: usize = 0;
    while i < names.len()
        invariant
            i <= names@.len(),
            declared(*declared_outputs) == declare_all(
                declared(*old(declared_outputs)),
                names@.take(i as int),
            ),
        decreases names@.len() - i,
    {
        let ghost now = names@.take(i + 1);
        assert(now.drop_last() =~= names@.take(i as int));
        index_map_insert(declared_outputs, names[i].clone(), true);
        i += 1;
    }
    assert(names@.take(i as int) =~= names@);
}

} // verus!
