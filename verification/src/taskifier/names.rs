//! Names and log messages of the generated items.
use convert_case::Casing;
use vstd::prelude::*;

verus! {

/// The PascalCase form that the `convert_case` crate gives to a name.
pub uninterp spec fn pascal_case(name: Seq<char>) -> Seq<char>;

/// Converts `name` to PascalCase with `convert_case`.
#[verifier::external_body]
fn to_pascal_case(name: &str) -> (r: String)
    ensures
        r@ == pascal_case(name@),
{
    name.to_case(convert_case::Case::Pascal)
}

/// Whether two texts are equal.
pub fn same_text(a: &str, b: &str) -> (r: bool)
    ensures
        r == (a@ == b@),
{
    String::from_str(a) == String::from_str(b)
}

/// The names of the items generated for one worker method.
pub struct TaskNames {
    /// The variant of `Task`, `TaskResult` and `ChanneledTask`.
    pub variant: String,
    /// The struct holding the method's arguments.
    pub params_struct: String,
    /// The struct holding the method's return value.
    pub result_struct: String,
    /// The accessor of `TaskResult` for this method.
    pub as_result_fn: String,
}

/// The names for the method `fn_name`, given its PascalCase form `pascal`.
pub open spec fn task_names_spec(fn_name: Seq<char>, pascal: Seq<char>) -> (Seq<char>, Seq<char>, Seq<char>, Seq<char>) {
    (pascal, pascal + "Params"@, pascal + "Result"@, "as_"@ + fn_name + "_result"@)
}

/// Builds the names for the method `fn_name` from its PascalCase form.
pub fn task_names_from_pascal(fn_name: &str, pascal: &str) -> (r: TaskNames)
    ensures
        (r.variant@, r.params_struct@, r.result_struct@, r.as_result_fn@) == task_names_spec(fn_name@, pascal@),
{
    let variant = String::from_str(pascal);
    let params_struct = String::from_str(pascal).concat("Params");
    let result_struct = String::from_str(pascal).concat("Result");
    let as_result_fn = String::from_str("as_").concat(fn_name).concat("_result");
    TaskNames { variant, params_struct, result_struct, as_result_fn }
}

/// The names of the items generated for the worker method `fn_name`.
pub fn task_names(fn_name: &str) -> (r: TaskNames)
    ensures
        (r.variant@, r.params_struct@, r.result_struct@, r.as_result_fn@) == task_names_spec(fn_name@, pascal_case(fn_name@)),
{
    let pascal = to_pascal_case(fn_name);
    task_names_from_pascal(fn_name, pascal.as_str())
}

/// The items generated for one method never share a name: the variant, the
/// parameter struct and the result struct are three different names.
pub proof fn lemma_task_names_distinct(fn_name: Seq<char>, pascal: Seq<char>)
    ensures
        ({
            let (variant, params, result, _) = task_names_spec(fn_name, pascal);
            &&& variant != params
            &&& variant != result
            &&& params != result
        }),
{
    reveal_strlit("Params");
    reveal_strlit("Result");
    let (variant, params, result, _) = task_names_spec(fn_name, pascal);
    assert(params[pascal.len() as int] == 'P');
    assert(result[pascal.len() as int] == 'R');
}

/// Two methods get the same parameter struct, or the same result struct, only
/// when their PascalCase forms are the same.
pub proof fn lemma_task_names_injective(name1: Seq<char>, pascal1: Seq<char>, name2: Seq<char>, pascal2: Seq<char>)
    requires
        pascal1 != pascal2,
    ensures
        task_names_spec(name1, pascal1).1 != task_names_spec(name2, pascal2).1,
        task_names_spec(name1, pascal1).2 != task_names_spec(name2, pascal2).2,
        task_names_spec(name1, pascal1).0 != task_names_spec(name2, pascal2).0,
{
    let p1 = pascal1 + "Params"@;
    let p2 = pascal2 + "Params"@;
    if p1 == p2 {
        assert(p1.len() == p2.len());
        assert(pascal1 =~= p1.subrange(0, pascal1.len() as int));
        assert(pascal2 =~= p2.subrange(0, pascal2.len() as int));
    }
    let r1 = pascal1 + "Result"@;
    let r2 = pascal2 + "Result"@;
    if r1 == r2 {
        assert(r1.len() == r2.len());
        assert(pascal1 =~= r1.subrange(0, pascal1.len() as int));
        assert(pascal2 =~= r2.subrange(0, pascal2.len() as int));
    }
}

/// The log and error message templates of the generated client method
/// `fn_name`; `{}` stands for the module path and `{:?}` for the error.
pub struct ClientMessages {
    pub send_error: String,
    pub recv_error: String,
    pub sending_task: String,
    pub waiting_for_result: String,
}

pub open spec fn client_prefix(fn_name: Seq<char>) -> Seq<char> {
    "{}::Client::"@ + fn_name
}

/// The message templates of the client method `fn_name`.
pub fn client_messages(fn_name: &str) -> (r: ClientMessages)
    ensures
        r.send_error@ == client_prefix(fn_name@) + ", msg = {:?}"@,
        r.recv_error@ == client_prefix(fn_name@) + " response, msg = {:?}"@,
        r.sending_task@ == client_prefix(fn_name@) + ", sending task to workers"@,
        r.waiting_for_result@ == client_prefix(fn_name@) + ", waiting for task result"@,
{
    let prefix = String::from_str("{}::Client::").concat(fn_name);
    ClientMessages {
        send_error: prefix.clone().concat(", msg = {:?}"),
        recv_error: prefix.clone().concat(" response, msg = {:?}"),
        sending_task: prefix.clone().concat(", sending task to workers"),
        waiting_for_result: prefix.concat(", waiting for task result"),
    }
}

/// The log message template written before a task of the variant `variant`
/// is executed, `definitions_path` being the text of the task definitions' path.
pub fn executing_task_message(definitions_path: &str, variant: &str) -> (r: String)
    ensures
        r@ == "Executing channeled task = {}::"@ + definitions_path@ + "::"@ + variant@,
{
    String::from_str("Executing channeled task = {}::").concat(definitions_path).concat("::").concat(variant)
}

/// The log message template written before the result of a channeled task of
/// the variant `variant` is sent back.
pub fn sending_result_message(definitions_path: &str, variant: &str) -> (r: String)
    ensures
        r@ == "Sending channeled task result = {}::"@ + definitions_path@ + "::"@ + variant@,
{
    String::from_str("Sending channeled task result = {}::").concat(definitions_path).concat("::").concat(variant)
}

/// The texts `parts` joined with `separator` between neighbours.
pub open spec fn join(parts: Seq<Seq<char>>, separator: Seq<char>) -> Seq<char>
    decreases parts.len(),
{
    if parts.len() == 0 {
        Seq::empty()
    } else if parts.len() == 1 {
        parts[0]
    } else {
        join(parts.drop_last(), separator) + separator + parts.last()
    }
}

/// The pieces that a path is written from: `::` for a leading `::`, then
/// each segment.
pub open spec fn path_pieces(leading_colon: bool, segments: Seq<Seq<char>>) -> Seq<Seq<char>> {
    if leading_colon {
        seq!["::"@] + segments
    } else {
        segments
    }
}

/// The text of a path: its pieces joined with `::`.  A leading `::` is itself
/// a piece, so `::a::b` is written `::::a::b`.
pub fn path_to_string(leading_colon: bool, segments: &Vec<String>) -> (r: String)
    ensures
        r@ == join(path_pieces(leading_colon, segments@.map_values(|s: String| s@)), "::"@),
{
    let ghost pieces = path_pieces(leading_colon, segments@.map_values(|s: String| s@));
    let ghost offset: int = if leading_colon { 1 } else { 0 };
    let mut r = String::new();
    if leading_colon {
        r.append("::");
        assert(pieces.take(1) =~= seq!["::"@]);
    } else {
        assert(pieces.take(0) =~= Seq::<Seq<char>>::empty());
    }
    let mut i: usize = 0;
    while i < segments.len()
        invariant
            i <= segments.len(),
            offset == (if leading_colon { 1int } else { 0int }),
            pieces == path_pieces(leading_colon, segments@.map_values(|s: String| s@)),
            pieces.len() == offset + segments.len(),
            forall|k: int| 0 <= k < segments.len() ==> #[trigger] pieces[offset + k] == segments@[k]@,
            r@ == join(pieces.take(offset + i), "::"@),
        decreases segments.len() - i,
    {
        if leading_colon || i > 0 {
            r.append("::");
        }
        r.append(segments[i].as_str());
        proof {
            let next = pieces.take(offset + i + 1);
            assert(next.drop_last() =~= pieces.take(offset + i));
            assert(next.last() == segments@[i as int]@);
        }
        i = i + 1;
    }
    assert(pieces.take(offset + i) =~= pieces);
    r
}

/// Whether an attribute whose path has the segments `segments` is the
/// attribute `name`: the path must be that single identifier.
pub fn attribute_is(segments: &Vec<String>, name: &str) -> (r: bool)
    ensures
        r == (segments@.len() == 1 && segments@[0]@ == name@),
{
    if segments.len() == 0 {
        return false;
    }
    if same_text(segments[0].as_str(), name) {
        segments.len() == 1
    } else {
        false
    }
}

} // verus!
