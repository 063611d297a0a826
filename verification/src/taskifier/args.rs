//! The arguments of the code generator's attribute:
//! `task_definitions_module_path = <path>`, `client_name = <ident>`, and the
//! flags `use_serde` and `debug`, each at most once, separated by commas.
//!
//! The path and the identifier are parsed by the caller; this module decides
//! what each argument name means, which arguments are repeated, unknown or
//! missing, and what the resulting settings are.
use vstd::prelude::*;
use super::names::same_text;

verus! {

/// The arguments that the attribute accepts.
#[derive(Debug, Clone, Copy, PartialEq, Eq, Structural)]
pub enum ArgKind {
    /// `task_definitions_module_path = <path>`: where the task types live.
    DefinitionsPath,
    /// `client_name = <ident>`: the name of the generated client.
    ClientName,
    /// `use_serde`: derive serde's traits on the task types.
    UseSerde,
    /// `debug`: print the generated code instead of compiling it.
    Debug,
}

/// Why the attribute's arguments were refused.
#[derive(Debug, PartialEq, Eq)]
pub enum ArgError {
    /// An argument was given twice.
    Repeated(ArgKind),
    /// An argument name that the attribute does not know.
    Unexpected(String),
    /// A required argument was not given.
    Missing(ArgKind),
}

/// The name of an argument, as written in the attribute.
pub open spec fn arg_name(kind: ArgKind) -> Seq<char> {
    match kind {
        ArgKind::DefinitionsPath => "task_definitions_module_path"@,
        ArgKind::ClientName => "client_name"@,
        ArgKind::UseSerde => "use_serde"@,
        ArgKind::Debug => "debug"@,
    }
}

/// The argument that `name` names, if any.
pub open spec fn arg_kind_of(name: Seq<char>) -> Option<ArgKind> {
    if name == arg_name(ArgKind::DefinitionsPath) {
        Some(ArgKind::DefinitionsPath)
    } else if name == arg_name(ArgKind::ClientName) {
        Some(ArgKind::ClientName)
    } else if name == arg_name(ArgKind::UseSerde) {
        Some(ArgKind::UseSerde)
    } else if name == arg_name(ArgKind::Debug) {
        Some(ArgKind::Debug)
    } else {
        None
    }
}

/// The text of an error, as reported at the attribute.
pub open spec fn arg_error_text(e: ArgError) -> Seq<char> {
    match e {
        ArgError::Repeated(k) => "multiple parameter: `"@ + arg_name(k) + "`"@,
        ArgError::Unexpected(name) => "unexpected parameter `"@ + name@ + "`"@,
        ArgError::Missing(k) => "missing parameter: `"@ + arg_name(k) + "`"@,
    }
}

/// Writes the name of an argument.
pub fn arg_kind_name(kind: ArgKind) -> (s: &'static str)
    ensures
        s@ == arg_name(kind),
{
    match kind {
        ArgKind::DefinitionsPath => "task_definitions_module_path",
        ArgKind::ClientName => "client_name",
        ArgKind::UseSerde => "use_serde",
        ArgKind::Debug => "debug",
    }
}

impl ArgError {
    /// The text of the error.
    pub fn message(&self) -> (s: String)
        ensures
            s@ == arg_error_text(*self),
    {
        match self {
            ArgError::Repeated(k) => String::from_str("multiple parameter: `").concat(arg_kind_name(*k)).concat("`"),
            ArgError::Unexpected(name) => String::from_str("unexpected parameter `").concat(name.as_str()).concat("`"),
            ArgError::Missing(k) => String::from_str("missing parameter: `").concat(arg_kind_name(*k)).concat("`"),
        }
    }
}

/// Finds the argument that `name` names.
pub fn classify_arg_name(name: &str) -> (r: Option<ArgKind>)
    ensures
        r == arg_kind_of(name@),
{
    if same_text(name, arg_kind_name(ArgKind::DefinitionsPath)) {
        Some(ArgKind::DefinitionsPath)
    } else if same_text(name, arg_kind_name(ArgKind::ClientName)) {
        Some(ArgKind::ClientName)
    } else if same_text(name, arg_kind_name(ArgKind::UseSerde)) {
        Some(ArgKind::UseSerde)
    } else if same_text(name, arg_kind_name(ArgKind::Debug)) {
        Some(ArgKind::Debug)
    } else {
        None
    }
}

/// The settings read from the attribute's arguments.
pub struct TaskifierArgs<P, I> {
    pub task_definitions_module_path: P,
    pub client_name: I,
    pub use_serde: bool,
    pub debug_mode: bool,
}

/// What the caller has to read next from the argument list.
#[derive(Debug, Clone, Copy, PartialEq, Eq, Structural)]
pub enum ArgsStep {
    /// The name of the next argument (an identifier).
    Name,
    /// The comma that separates an argument from the next one.
    Comma,
    /// Nothing: the list is over and the settings can be taken.
    Finish,
}

/// The arguments read so far.  `P` is the caller's path type and `I` its
/// identifier type.
pub struct ArgsParser<P, I> {
    pub definitions_path: Option<P>,
    pub client_name: Option<I>,
    pub use_serde: bool,
    pub debug: bool,
    /// An argument has just been read completely: a comma must come next,
    /// unless the list ends.
    pub after_argument: bool,
}

/// The state before any argument.
pub open spec fn no_arguments<P, I>() -> ArgsParser<P, I> {
    ArgsParser { definitions_path: None, client_name: None, use_serde: false, debug: false, after_argument: false }
}

/// What comes next: the end of the list finishes it; after a complete
/// argument a comma is required, otherwise an argument name.
pub open spec fn next_step_spec<P, I>(p: ArgsParser<P, I>, at_end: bool) -> ArgsStep {
    if at_end {
        ArgsStep::Finish
    } else if p.after_argument {
        ArgsStep::Comma
    } else {
        ArgsStep::Name
    }
}

/// The argument list ends exactly where the input ends, whatever was read
/// last: at the end of the input the next step is always to finish, so no
/// trailing comma is required after the last argument.  Before the end, a
/// comma is required right after a complete argument and a name otherwise.
pub proof fn lemma_list_ends_at_end_of_input<P, I>(p: ArgsParser<P, I>)
    ensures
        next_step_spec(p, true) == ArgsStep::Finish,
        p.after_argument ==> next_step_spec(p, false) == ArgsStep::Comma,
        !p.after_argument ==> next_step_spec(p, false) == ArgsStep::Name,
{
}

/// The settings, once the list is over: the path is required, then the
/// client name.
pub open spec fn finish_spec<P, I>(p: ArgsParser<P, I>) -> Result<TaskifierArgs<P, I>, ArgError> {
    if p.definitions_path is None {
        Err(ArgError::Missing(ArgKind::DefinitionsPath))
    } else if p.client_name is None {
        Err(ArgError::Missing(ArgKind::ClientName))
    } else {
        Ok(TaskifierArgs {
            task_definitions_module_path: p.definitions_path->0,
            client_name: p.client_name->0,
            use_serde: p.use_serde,
            debug_mode: p.debug,
        })
    }
}

impl<P, I> ArgsParser<P, I> {
    /// Whether the argument `kind` has been read already.
    pub open spec fn given(&self, kind: ArgKind) -> bool {
        match kind {
            ArgKind::DefinitionsPath => self.definitions_path is Some,
            ArgKind::ClientName => self.client_name is Some,
            ArgKind::UseSerde => self.use_serde,
            ArgKind::Debug => self.debug,
        }
    }

    /// Nothing read yet.
    pub fn new() -> (p: Self)
        ensures
            p == no_arguments::<P, I>(),
    {
        ArgsParser { definitions_path: None, client_name: None, use_serde: false, debug: false, after_argument: false }
    }

    /// What the caller has to read next; `at_end` tells whether the argument
    /// list has no token left.
    pub fn next_step(&self, at_end: bool) -> (s: ArgsStep)
        ensures
            s == next_step_spec(*self, at_end),
    {
        if at_end {
            ArgsStep::Finish
        } else if self.after_argument {
            ArgsStep::Comma
        } else {
            ArgsStep::Name
        }
    }

    /// Records the comma read after an argument.
    pub fn accept_comma(&mut self)
        ensures
            *final(self) == (ArgsParser { after_argument: false, ..*old(self) }),
    {
        self.after_argument = false;
    }

    /// Reads the name of the next argument.  An unknown name or a repeated
    /// argument is refused; a flag is recorded at once and completes the
    /// argument; for an argument with a value, its kind is returned and the
    /// caller reads `= value` and hands the value to `set_definitions_path` or
    /// `set_client_name`.
    pub fn accept_name(&mut self, name: &str) -> (r: Result<ArgKind, ArgError>)
        ensures
            match arg_kind_of(name@) {
                None => {
                    &&& r is Err
                    &&& r->Err_0 is Unexpected
                    &&& r->Err_0->Unexpected_0@ == name@
                    &&& *final(self) == *old(self)
                },
                Some(k) => if old(self).given(k) {
                    &&& r == Err::<ArgKind, ArgError>(ArgError::Repeated(k))
                    &&& *final(self) == *old(self)
                } else {
                    &&& r == Ok::<ArgKind, ArgError>(k)
                    &&& *final(self) == match k {
                        ArgKind::UseSerde => ArgsParser { use_serde: true, after_argument: true, ..*old(self) },
                        ArgKind::Debug => ArgsParser { debug: true, after_argument: true, ..*old(self) },
                        _ => *old(self),
                    }
                },
            },
    {
        match classify_arg_name(name) {
            None => Err(ArgError::Unexpected(String::from_str(name))),
            Some(kind) => {
                let repeated = match kind {
                    ArgKind::DefinitionsPath => self.definitions_path.is_some(),
                    ArgKind::ClientName => self.client_name.is_some(),
                    ArgKind::UseSerde => self.use_serde,
                    ArgKind::Debug => self.debug,
                };
                if repeated {
                    return Err(ArgError::Repeated(kind));
                }
                match kind {
                    ArgKind::UseSerde => {
                        self.use_serde = true;
                        self.after_argument = true;
                    },
                    ArgKind::Debug => {
                        self.debug = true;
                        self.after_argument = true;
                    },
                    _ => {},
                }
                Ok(kind)
            },
        }
    }

    /// Records the value of `task_definitions_module_path`, completing the
    /// argument.
    pub fn set_definitions_path(&mut self, path: P)
        ensures
            *final(self) == (ArgsParser { definitions_path: Some(path), after_argument: true, ..*old(self) }),
    {
        self.definitions_path = Some(path);
        self.after_argument = true;
    }

    /// Records the value of `client_name`, completing the argument.
    pub fn set_client_name(&mut self, name: I)
        ensures
            *final(self) == (ArgsParser { client_name: Some(name), after_argument: true, ..*old(self) }),
    {
        self.client_name = Some(name);
        self.after_argument = true;
    }

    /// The settings, once every argument has been read: the path is checked
    /// for first, then the client name; the flags default to off.
    pub fn finish(self) -> (r: Result<TaskifierArgs<P, I>, ArgError>)
        ensures
            r == finish_spec(self),
    {
        match self.definitions_path {
            None => Err(ArgError::Missing(ArgKind::DefinitionsPath)),
            Some(path) => match self.client_name {
                None => Err(ArgError::Missing(ArgKind::ClientName)),
                Some(name) => Ok(TaskifierArgs {
                    task_definitions_module_path: path,
                    client_name: name,
                    use_serde: self.use_serde,
                    debug_mode: self.debug,
                }),
            },
        }
    }
}

/// Reading one complete argument `(name, path value, identifier value)`, as
/// `accept_name` followed, for an argument with a value, by `set_*` and then
/// the separating comma: the value that the argument's kind needs is used.
/// `None` when the name is unknown or the argument repeated.
pub open spec fn read_argument<P, I>(p: ArgsParser<P, I>, item: (Seq<char>, P, I)) -> Option<ArgsParser<P, I>> {
    match arg_kind_of(item.0) {
        None => None,
        Some(k) => if p.given(k) {
            None
        } else {
            Some(match k {
                ArgKind::DefinitionsPath => ArgsParser { definitions_path: Some(item.1), ..p },
                ArgKind::ClientName => ArgsParser { client_name: Some(item.2), ..p },
                ArgKind::UseSerde => ArgsParser { use_serde: true, ..p },
                ArgKind::Debug => ArgsParser { debug: true, ..p },
            })
        },
    }
}

/// Reading a whole list of arguments, first to last.
pub open spec fn read_all<P, I>(p: ArgsParser<P, I>, items: Seq<(Seq<char>, P, I)>) -> Option<ArgsParser<P, I>>
    decreases items.len(),
{
    if items.len() == 0 {
        Some(p)
    } else {
        match read_all(p, items.drop_last()) {
            None => None,
            Some(q) => read_argument(q, items.last()),
        }
    }
}

/// The arguments of a list, each name taken as its text.
pub open spec fn arguments_view<P, I>(items: Seq<(String, P, I)>) -> Seq<(Seq<char>, P, I)> {
    items.map_values(|x: (String, P, I)| (x.0@, x.1, x.2))
}

proof fn lemma_read_all_stays_none<P, I>(p: ArgsParser<P, I>, items: Seq<(Seq<char>, P, I)>, k: int)
    requires
        0 <= k <= items.len(),
        read_all(p, items.take(k)) is None,
    ensures
        read_all(p, items) is None,
    decreases items.len() - k,
{
    if k < items.len() {
        assert(items.take(k + 1).drop_last() =~= items.take(k));
        lemma_read_all_stays_none(p, items, k + 1);
    } else {
        assert(items.take(k) =~= items);
    }
}

/// Reads a whole argument list with `accept_name`, the `set_*` functions and
/// `accept_comma`, each argument given as its name with the path and the
/// identifier to use as its value.  The result is exactly `read_all`: the
/// first unknown or repeated argument refuses the list.
pub fn read_arguments<P, I>(items: Vec<(String, P, I)>) -> (r: Result<ArgsParser<P, I>, ArgError>)
    ensures
        r is Ok <==> read_all(no_arguments::<P, I>(), arguments_view(items@)) is Some,
        r is Ok ==> read_all(no_arguments::<P, I>(), arguments_view(items@)) == Some(r->Ok_0),
{
    let ghost given = items@;
    let ghost all = arguments_view(given);
    let ghost mut i: int = 0;
    let mut rest = items;
    let mut parser: ArgsParser<P, I> = ArgsParser::new();
    proof {
        assert(all.take(0) =~= Seq::<(Seq<char>, P, I)>::empty());
        assert(arguments_view(rest@) =~= all.skip(0));
    }
    while rest.len() > 0
        invariant
            all == arguments_view(given),
            given == items@,
            0 <= i <= all.len(),
            arguments_view(rest@) == all.skip(i),
            read_all(no_arguments::<P, I>(), all.take(i)) == Some(parser),
            !parser.after_argument,
        decreases rest@.len(),
    {
        let ghost old_rest = rest@;
        proof {
            assert(arguments_view(old_rest).len() == old_rest.len());
            assert(i < all.len());
            assert(arguments_view(old_rest)[0] == all[i]);
        }
        let (name, path, ident) = rest.remove(0);
        proof {
            assert(old_rest[0] == (name, path, ident));
            assert(rest@ =~= old_rest.subrange(1, old_rest.len() as int));
            assert forall|k: int| 0 <= k < rest@.len() implies #[trigger] arguments_view(rest@)[k] == all.skip(i + 1)[k] by {
                assert(rest@[k] == old_rest[k + 1]);
                assert(arguments_view(old_rest)[k + 1] == all.skip(i)[k + 1]);
            }
            assert(arguments_view(rest@) =~= all.skip(i + 1));
            assert(all.take(i + 1).drop_last() =~= all.take(i));
            assert(all[i] == (name@, path, ident));
        }
        match parser.accept_name(name.as_str()) {
            Err(e) => {
                proof {
                    assert(read_all(no_arguments::<P, I>(), all.take(i + 1)) is None);
                    lemma_read_all_stays_none(no_arguments::<P, I>(), all, i + 1);
                }
                return Err(e);
            },
            Ok(ArgKind::DefinitionsPath) => parser.set_definitions_path(path),
            Ok(ArgKind::ClientName) => parser.set_client_name(ident),
            Ok(_) => {},
        }
        parser.accept_comma();
        proof {
            assert(read_all(no_arguments::<P, I>(), all.take(i + 1)) == Some(parser));
            i = i + 1;
        }
    }
    proof {
        assert(all.skip(i).len() == 0);
        assert(all.take(i) =~= all);
    }
    Ok(parser)
}

/// No argument name occurs twice.
pub open spec fn names_distinct<P, I>(items: Seq<(Seq<char>, P, I)>) -> bool {
    forall|i: int, j: int| 0 <= i < j < items.len() ==> items[i].0 != items[j].0
}

/// Every argument name is one the attribute knows.
pub open spec fn names_known<P, I>(items: Seq<(Seq<char>, P, I)>) -> bool {
    forall|i: int| 0 <= i < items.len() ==> #[trigger] arg_kind_of(items[i].0) is Some
}

/// The argument of the list called `name`, if any.
pub open spec fn item_named<P, I>(items: Seq<(Seq<char>, P, I)>, name: Seq<char>) -> Option<(Seq<char>, P, I)> {
    if exists|i: int| 0 <= i < items.len() && items[i].0 == name {
        Some(items[choose|i: int| 0 <= i < items.len() && items[i].0 == name])
    } else {
        None
    }
}

/// The state after reading a list of distinct known arguments, described by
/// which arguments the list holds.
pub open spec fn parser_from<P, I>(items: Seq<(Seq<char>, P, I)>) -> ArgsParser<P, I> {
    ArgsParser {
        definitions_path: match item_named(items, arg_name(ArgKind::DefinitionsPath)) {
            Some(x) => Some(x.1),
            None => None,
        },
        client_name: match item_named(items, arg_name(ArgKind::ClientName)) {
            Some(x) => Some(x.2),
            None => None,
        },
        use_serde: item_named(items, arg_name(ArgKind::UseSerde)) is Some,
        debug: item_named(items, arg_name(ArgKind::Debug)) is Some,
        after_argument: false,
    }
}

proof fn lemma_arg_names_differ()
    ensures
        arg_name(ArgKind::DefinitionsPath) != arg_name(ArgKind::ClientName),
        arg_name(ArgKind::DefinitionsPath) != arg_name(ArgKind::UseSerde),
        arg_name(ArgKind::DefinitionsPath) != arg_name(ArgKind::Debug),
        arg_name(ArgKind::ClientName) != arg_name(ArgKind::UseSerde),
        arg_name(ArgKind::ClientName) != arg_name(ArgKind::Debug),
        arg_name(ArgKind::UseSerde) != arg_name(ArgKind::Debug),
        forall|k: ArgKind| #[trigger] arg_kind_of(arg_name(k)) == Some(k),
{
    reveal_strlit("task_definitions_module_path");
    reveal_strlit("client_name");
    reveal_strlit("use_serde");
    reveal_strlit("debug");
    assert("task_definitions_module_path"@.len() == 28);
    assert("client_name"@.len() == 11);
    assert("use_serde"@.len() == 9);
    assert("debug"@.len() == 5);
    assert forall|k: ArgKind| #[trigger] arg_kind_of(arg_name(k)) == Some(k) by {
        match k {
            ArgKind::DefinitionsPath => {},
            ArgKind::ClientName => {},
            ArgKind::UseSerde => {},
            ArgKind::Debug => {},
        }
    }
}

proof fn lemma_item_named_at<P, I>(items: Seq<(Seq<char>, P, I)>, i: int)
    requires
        names_distinct(items),
        0 <= i < items.len(),
    ensures
        item_named(items, items[i].0) == Some(items[i]),
{
    let name = items[i].0;
    let j = choose|j: int| 0 <= j < items.len() && items[j].0 == name;
    assert(0 <= j < items.len() && items[j].0 == name);
    if j < i {
        assert(items[j].0 != items[i].0);
    } else if i < j {
        assert(items[i].0 != items[j].0);
    }
}

proof fn lemma_item_named_prefix<P, I>(items: Seq<(Seq<char>, P, I)>, name: Seq<char>)
    requires
        names_distinct(items),
        items.len() > 0,
        items.last().0 != name,
    ensures
        item_named(items, name) == item_named(items.drop_last(), name),
{
    let pre = items.drop_last();
    if exists|i: int| 0 <= i < items.len() && items[i].0 == name {
        let i = choose|i: int| 0 <= i < items.len() && items[i].0 == name;
        assert(i < items.len() - 1);
        assert(pre[i] == items[i]);
        lemma_item_named_at(items, i);
        assert(names_distinct(pre));
        lemma_item_named_at(pre, i);
    } else {
        assert(!exists|i: int| 0 <= i < pre.len() && pre[i].0 == name) by {
            if exists|i: int| 0 <= i < pre.len() && pre[i].0 == name {
                let i = choose|i: int| 0 <= i < pre.len() && pre[i].0 == name;
                assert(items[i].0 == name);
            }
        }
    }
}

/// Reading a list of distinct known arguments succeeds, and what it records
/// depends only on which arguments the list holds.
pub proof fn lemma_read_all_distinct<P, I>(items: Seq<(Seq<char>, P, I)>)
    requires
        names_distinct(items),
        names_known(items),
    ensures
        read_all(no_arguments::<P, I>(), items) == Some(parser_from(items)),
    decreases items.len(),
{
    lemma_arg_names_differ();
    if items.len() == 0 {
        assert(parser_from(items) == no_arguments::<P, I>());
    } else {
        let pre = items.drop_last();
        let last = items.last();
        assert(names_distinct(pre));
        assert(names_known(pre)) by {
            assert forall|i: int| 0 <= i < pre.len() implies #[trigger] arg_kind_of(pre[i].0) is Some by {
                assert(pre[i] == items[i]);
                assert(arg_kind_of(items[i].0) is Some);
            }
        }
        lemma_read_all_distinct(pre);
        assert(arg_kind_of(items[items.len() - 1].0) is Some);
        let k = arg_kind_of(last.0)->0;
        assert(last.0 == arg_name(k));
        lemma_item_named_at(items, items.len() - 1);
        assert(item_named(pre, last.0) is None) by {
            if exists|i: int| 0 <= i < pre.len() && pre[i].0 == last.0 {
                let i = choose|i: int| 0 <= i < pre.len() && pre[i].0 == last.0;
                assert(items[i].0 != items[items.len() - 1].0);
            }
        }
        assert forall|other: ArgKind| other != k implies item_named(items, #[trigger] arg_name(other)) == item_named(pre, arg_name(other)) by {
            lemma_item_named_prefix(items, arg_name(other));
        }
        if k != ArgKind::DefinitionsPath {
            assert(item_named(items, arg_name(ArgKind::DefinitionsPath)) == item_named(pre, arg_name(ArgKind::DefinitionsPath)));
        }
        if k != ArgKind::ClientName {
            assert(item_named(items, arg_name(ArgKind::ClientName)) == item_named(pre, arg_name(ArgKind::ClientName)));
        }
        if k != ArgKind::UseSerde {
            assert(item_named(items, arg_name(ArgKind::UseSerde)) == item_named(pre, arg_name(ArgKind::UseSerde)));
        }
        if k != ArgKind::Debug {
            assert(item_named(items, arg_name(ArgKind::Debug)) == item_named(pre, arg_name(ArgKind::Debug)));
        }
    }
}

proof fn lemma_item_named_same_elements<P, I>(a: Seq<(Seq<char>, P, I)>, b: Seq<(Seq<char>, P, I)>, name: Seq<char>)
    requires
        names_distinct(a),
        names_distinct(b),
        forall|x: (Seq<char>, P, I)| a.contains(x) <==> b.contains(x),
    ensures
        item_named(a, name) == item_named(b, name),
{
    if exists|i: int| 0 <= i < a.len() && a[i].0 == name {
        let i = choose|i: int| 0 <= i < a.len() && a[i].0 == name;
        assert(a.contains(a[i]));
        assert(b.contains(a[i]));
        let j = choose|j: int| 0 <= j < b.len() && b[j] == a[i];
        lemma_item_named_at(a, i);
        lemma_item_named_at(b, j);
    } else if exists|j: int| 0 <= j < b.len() && b[j].0 == name {
        let j = choose|j: int| 0 <= j < b.len() && b[j].0 == name;
        assert(b.contains(b[j]));
        assert(a.contains(b[j]));
        let i = choose|i: int| 0 <= i < a.len() && a[i] == b[j];
        assert(a[i].0 == name);
    }
}

/// The order of the arguments does not matter: two lists that hold the same
/// arguments, each name at most once, all known, with the path and the client
/// name present, both read successfully to the same settings.
pub proof fn lemma_argument_order_irrelevant<P, I>(a: Seq<(Seq<char>, P, I)>, b: Seq<(Seq<char>, P, I)>)
    requires
        names_distinct(a),
        names_distinct(b),
        names_known(a),
        forall|x: (Seq<char>, P, I)| a.contains(x) <==> b.contains(x),
        exists|i: int| 0 <= i < a.len() && a[i].0 == arg_name(ArgKind::DefinitionsPath),
        exists|i: int| 0 <= i < a.len() && a[i].0 == arg_name(ArgKind::ClientName),
    ensures
        read_all(no_arguments::<P, I>(), a) is Some,
        read_all(no_arguments::<P, I>(), a) == read_all(no_arguments::<P, I>(), b),
        finish_spec(read_all(no_arguments::<P, I>(), a)->0) is Ok,
{
    assert(names_known(b)) by {
        assert forall|j: int| 0 <= j < b.len() implies #[trigger] arg_kind_of(b[j].0) is Some by {
            assert(b.contains(b[j]));
            assert(a.contains(b[j]));
            let i = choose|i: int| 0 <= i < a.len() && a[i] == b[j];
            assert(arg_kind_of(a[i].0) is Some);
        }
    }
    lemma_read_all_distinct(a);
    lemma_read_all_distinct(b);
    lemma_item_named_same_elements(a, b, arg_name(ArgKind::DefinitionsPath));
    lemma_item_named_same_elements(a, b, arg_name(ArgKind::ClientName));
    lemma_item_named_same_elements(a, b, arg_name(ArgKind::UseSerde));
    lemma_item_named_same_elements(a, b, arg_name(ArgKind::Debug));
}

} // verus!
