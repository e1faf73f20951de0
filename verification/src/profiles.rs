use vstd::prelude::*;
use vstd::string::{StrSliceExecFns, StringExecFns};

verus! {

/// Name of the directory of the profiles under that of the program.
pub const PROFILES_DIR_NAME: &'static str = "profiles";

/// Whether `char::is_alphanumeric` of the standard library holds of a
/// character: it is a letter or a digit of some script.
pub uninterp spec fn char_is_alphanumeric(c: char) -> bool;

/// Calls `char::is_alphanumeric` of the standard library, which looks the
/// character up in the tables of Unicode. The result is a function of the
/// character alone; the contract gives it its name.
#[verifier::external_body]
fn is_alphanumeric(c: char) -> (yes: bool)
    ensures
        yes == char_is_alphanumeric(c),
{
    c.is_alphanumeric()
}

/// Calls `String::push` of the standard library, which appends one
/// character to a string.
#[verifier::external_body]
fn push_char(text: &mut String, c: char)
    ensures
        final(text)@ == old(text)@.push(c),
{
    text.push(c)
}

/// Whether a character may stand in a file name as it is: letters,
/// digits, hyphen and underscore may.
pub open spec fn spec_is_safe(c: char) -> bool {
    char_is_alphanumeric(c) || c == '-' || c == '_'
}

/// The character that stands for `c` in a file name.
pub open spec fn spec_sanitize_char(c: char) -> char {
    if spec_is_safe(c) {
        c
    } else {
        '_'
    }
}

/// A name as it is used for a file: every character that is not safe in
/// a file name gives way to an underscore.
pub open spec fn spec_sanitize_filename(name: Seq<char>) -> Seq<char> {
    name.map_values(|c: char| spec_sanitize_char(c))
}

/// Picks the character that stands for `c` in a file name, given whether
/// `c` is a letter or a digit.
pub fn sanitize_char(c: char, alphanumeric: bool) -> (out: char)
    ensures
        out == if alphanumeric || c == '-' || c == '_' {
            c
        } else {
            '_'
        },
{
    if alphanumeric || c == '-' || c == '_' {
        c
    } else {
        '_'
    }
}

/// Makes a name safe for use as a file name.
pub fn sanitize_filename(name: &str) -> (out: String)
    ensures
        out@ == spec_sanitize_filename(name@),
{
    let n = name.unicode_len();
    let mut out = String::new();
    let mut i: usize = 0;
    while i < n
        invariant
            i <= n,
            n == name@.len(),
            out@ == spec_sanitize_filename(name@.subrange(0, i as int)),
        decreases n - i,
    {
        let c = name.get_char(i);
        let alphanumeric = is_alphanumeric(c);
        push_char(&mut out, sanitize_char(c, alphanumeric));
        proof {
            assert(name@.subrange(0, i + 1) == name@.subrange(0, i as int).push(c));
            assert(out@ =~= spec_sanitize_filename(name@.subrange(0, i + 1)));
        }
        i += 1;
    }
    proof {
        assert(name@.subrange(0, n as int) == name@);
    }
    out
}

/// Name of the file that holds the profile called `name`.
pub fn profile_file_name(name: &str) -> (file: String)
    ensures
        file@ == spec_sanitize_filename(name@) + ".json"@,
{
    sanitize_filename(name).concat(".json")
}

} // verus!
