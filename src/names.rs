//! Turning runtime names into identifiers.

use vstd::prelude::*;
use crate::text::push_char;

verus! {

/// Whether `char::is_alphanumeric` holds of a character.
pub uninterp spec fn alphanumeric(c: char) -> bool;

/// Relies on `char::is_alphanumeric`, consulted for characters outside ASCII.
#[verifier::external_body]
fn is_alphanumeric(c: char) -> (r: bool)
    ensures
        r == alphanumeric(c),
{
    c.is_alphanumeric()
}

/// An ASCII letter or digit.
pub open spec fn ascii_alphanumeric(c: char) -> bool {
    ('a' <= c <= 'z') || ('A' <= c <= 'Z') || ('0' <= c <= '9')
}

/// Whether a character may stay in an identifier: in ASCII a letter or a
/// digit, beyond it whatever Unicode counts as alphabetic or numeric.
pub open spec fn kept(c: char) -> bool {
    if (c as u32) < 128 { ascii_alphanumeric(c) } else { alphanumeric(c) }
}

fn is_kept(c: char) -> (r: bool)
    ensures
        r == kept(c),
{
    if (c as u32) < 128 {
        ('a' <= c && c <= 'z') || ('A' <= c && c <= 'Z') || ('0' <= c && c <= '9')
    } else {
        is_alphanumeric(c)
    }
}

/// Each character that is not alphanumeric replaced by `_`.
pub open spec fn sanitized(s: Seq<char>) -> Seq<char> {
    Seq::new(s.len(), |i: int| if kept(s[i]) { s[i] } else { '_' })
}

/// Replaces every character that is not alphanumeric by an underscore.
pub fn sanitize_name(name: &str) -> (r: String)
    ensures
        r@ == sanitized(name@),
{
    let n = name.unicode_len();
    let mut out = String::new();
    let mut i: usize = 0;
    while i < n
        invariant
            n == name@.len(),
            i <= n,
            out@ == sanitized(name@.take(i as int)),
        decreases n - i,
    {
        let c = name.get_char(i);
        if is_kept(c) {
            push_char(&mut out, c);
        } else {
            push_char(&mut out, '_');
        }
        i = i + 1;
        assert(out@ =~= sanitized(name@.take(i as int)));
    }
    assert(name@.take(n as int) =~= name@);
    out
}

/// Sanitizing twice gives what sanitizing once gives.
pub proof fn lemma_sanitize_idempotent(s: Seq<char>)
    ensures
        sanitized(sanitized(s)) == sanitized(s),
{
    assert(sanitized(sanitized(s)) =~= sanitized(s));
}

/// A name made only of characters that may stay is left unchanged.
pub proof fn lemma_sanitize_keeps_identifiers(s: Seq<char>)
    requires
        forall|i: int| 0 <= i < s.len() ==> kept(#[trigger] s[i]),
    ensures
        sanitized(s) == s,
{
    assert(sanitized(s) =~= s);
}

/// Why a module name could not be reduced to its bare form.
#[derive(Debug, Clone, Copy, PartialEq, Eq, Structural)]
pub enum NameError {
    /// The host system is neither Linux nor Windows.
    UnsupportedOs,
    /// The name does not end in the host's library suffix.
    MissingSuffix,
}

/// The suffix of a loaded library on the host system named `os`.
pub open spec fn library_suffix(os: Seq<char>) -> Option<Seq<char>> {
    if os == "linux"@ {
        Some(".so"@)
    } else if os == "windows"@ {
        Some(".dll"@)
    } else {
        None
    }
}

/// Whether `s` ends in `suffix`.
pub open spec fn ends_with(s: Seq<char>, suffix: Seq<char>) -> bool {
    suffix.len() <= s.len() && s.subrange(s.len() - suffix.len(), s.len() as int) == suffix
}

/// The module name without the library suffix of host system `os`.
pub open spec fn bare_module_name(name: Seq<char>, os: Seq<char>) -> Result<Seq<char>, NameError> {
    match library_suffix(os) {
        None => Err(NameError::UnsupportedOs),
        Some(suffix) => if ends_with(name, suffix) {
            Ok(name.take(name.len() - suffix.len()))
        } else {
            Err(NameError::MissingSuffix)
        },
    }
}

/// Strips the library suffix of the host system (`.so` on `"linux"`, `.dll`
/// on `"windows"`, as `std::env::consts::OS` names them) from a module name.
pub fn format_module_name(module_name: &String, os: &str) -> (r: Result<String, NameError>)
    ensures
        r matches Ok(s) ==> bare_module_name(module_name@, os@) == Ok::<Seq<char>, NameError>(s@),
        r matches Err(e) ==> bare_module_name(module_name@, os@) == Err::<Seq<char>, NameError>(e),
{
    let host = String::from_str(os);
    let suffix = if host == String::from_str("linux") {
        String::from_str(".so")
    } else if host == String::from_str("windows") {
        String::from_str(".dll")
    } else {
        return Err(NameError::UnsupportedOs);
    };
    let name = module_name.as_str();
    let n = name.unicode_len();
    let k = suffix.as_str().unicode_len();
    if k > n {
        return Err(NameError::MissingSuffix);
    }
    let tail = String::from_str(name.substring_char(n - k, n));
    if tail == suffix {
        Ok(String::from_str(name.substring_char(0, n - k)))
    } else {
        Err(NameError::MissingSuffix)
    }
}

/// A name that ends in the host's library suffix loses exactly that suffix;
/// a name that does not end in it is refused.
pub proof fn lemma_strip_library_suffix(base: Seq<char>, name: Seq<char>, os: Seq<char>)
    requires
        library_suffix(os) is Some,
    ensures
        bare_module_name(base + library_suffix(os)->Some_0, os) == Ok::<Seq<char>, NameError>(base),
        !ends_with(name, library_suffix(os)->Some_0) ==> bare_module_name(name, os) == Err::<
            Seq<char>,
            NameError,
        >(NameError::MissingSuffix),
{
    let suffix = library_suffix(os)->Some_0;
    let full = base + suffix;
    assert(full.subrange(full.len() - suffix.len(), full.len() as int) =~= suffix);
    assert(full.take(full.len() - suffix.len()) =~= base);
}

} // verus!
