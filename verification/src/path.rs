use vstd::prelude::*;
use vstd::string::StrSliceExecFns;
use vstd::string::StringExecFns;

verus! {

/// `dir` and `file` joined with a single separator: the separator is added
/// only when `dir` does not already end with one. An empty `dir` yields an
/// absolute-looking `/file`, matching how an empty base joins.
pub open spec fn spec_join(dir: Seq<char>, file: Seq<char>) -> Seq<char> {
    if dir.len() > 0 && dir[dir.len() - 1] == '/' {
        dir + file
    } else {
        dir + "/"@ + file
    }
}

/// The socket file name derived from a logical endpoint id: `<id>.sock`.
pub open spec fn spec_socket_file_name(id: Seq<char>) -> Seq<char> {
    id + ".sock"@
}

/// The pipe name derived from a logical endpoint id: `\\.\pipe\<id>`.
pub open spec fn spec_pipe_name(id: Seq<char>) -> Seq<char> {
    "\\\\.\\pipe\\"@ + id
}

/// The Unix socket path for an endpoint id: `<id>.sock` inside the
/// preferred (runtime or cache) directory when one is known, else inside
/// the temporary directory.
pub open spec fn spec_socket_path(
    preferred_dir: Option<Seq<char>>,
    temp_dir: Seq<char>,
    id: Seq<char>,
) -> Seq<char> {
    match preferred_dir {
        Some(dir) => spec_join(dir, spec_socket_file_name(id)),
        None => spec_join(temp_dir, spec_socket_file_name(id)),
    }
}

/// Join a directory and a file name with exactly one separator between.
pub fn join_path(dir: &str, file: &str) -> (r: String)
    ensures
        r@ == spec_join(dir@, file@),
{
    let n = dir.unicode_len();
    let mut s = String::from_str(dir);
    if n == 0 || dir.get_char(n - 1) != '/' {
        s = s.concat("/");
    }
    s.concat(file)
}

/// The socket file name for a logical endpoint id.
pub fn socket_file_name(id: &str) -> (r: String)
    ensures
        r@ == spec_socket_file_name(id@),
{
    String::from_str(id).concat(".sock")
}

/// The Windows pipe name for a logical endpoint id.
pub fn pipe_name(id: &str) -> (r: String)
    ensures
        r@ == spec_pipe_name(id@),
{
    String::from_str("\\\\.\\pipe\\").concat(id)
}

/// The Unix socket path for a logical endpoint id, given the directories
/// the host resolved: the preferred per-user directory if the platform
/// offers one, else the temporary directory.
pub fn resolve_socket_path(preferred_dir: Option<&str>, temp_dir: &str, id: &str) -> (r: String)
    ensures
        ({
            let pref = match preferred_dir {
                Some(d) => Some(d@),
                None => None,
            };
            r@ == spec_socket_path(pref, temp_dir@, id@)
        }),
{
    let file = socket_file_name(id);
    match preferred_dir {
        Some(dir) => join_path(dir, file.as_str()),
        None => join_path(temp_dir, file.as_str()),
    }
}

} // verus!
