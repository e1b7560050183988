//! Blob storage helpers: locating a blob within its container and
//! recognising Azure Storage error codes in failure text.

use vstd::prelude::*;
use crate::text::{chars_of, contains_chars, contains_text, string_of};

verus! {

/// The Azure Storage error codes recognised in failure text, most
/// specific first.
pub open spec fn storage_error_codes() -> Seq<Seq<char>> {
    seq![
        "AuthorizationPermissionMismatch"@,
        "AuthorizationFailure"@,
        "AuthenticationFailed"@,
        "ResourceNotFound"@,
        "ContainerNotFound"@,
        "BlobNotFound"@,
        "PublicAccessNotPermitted"@,
        "AccountIsDisabled"@,
        "InsufficientAccountPermissions"@,
    ]
}

/// The first recognised code that occurs in `text`.
pub open spec fn first_code_in(text: Seq<char>, codes: Seq<Seq<char>>) -> Option<Seq<char>>
    decreases codes.len(),
{
    if codes.len() == 0 {
        None
    } else if contains_text(text, codes[0]) {
        Some(codes[0])
    } else {
        first_code_in(text, codes.drop_first())
    }
}

/// The first Azure Storage error code (in the order of
/// `storage_error_codes`) that occurs in an error's rendered text.
pub fn azure_error_code_hint(haystack: &str) -> (r: Option<String>)
    ensures
        (match r {
            Some(c) => first_code_in(haystack@, storage_error_codes()) == Some(c@),
            None => first_code_in(haystack@, storage_error_codes()) is None,
        }),
{
    let codes: [&str; 9] = [
        "AuthorizationPermissionMismatch",
        "AuthorizationFailure",
        "AuthenticationFailed",
        "ResourceNotFound",
        "ContainerNotFound",
        "BlobNotFound",
        "PublicAccessNotPermitted",
        "AccountIsDisabled",
        "InsufficientAccountPermissions",
    ];
    let ghost all = storage_error_codes();
    assert(forall|k: int| 0 <= k < 9 ==> #[trigger] codes@[k]@ == all[k]);
    let hay = chars_of(haystack);
    let mut i: usize = 0;
    assert(all.subrange(0, 9) =~= all);
    while i < 9
        invariant
            i <= 9,
            hay@ == haystack@,
            all == storage_error_codes(),
            forall|k: int| 0 <= k < 9 ==> #[trigger] codes@[k]@ == all[k],
            first_code_in(haystack@, all) == first_code_in(haystack@, all.subrange(i as int, 9)),
        decreases 9 - i,
    {
        let code = codes[i];
        let needle = chars_of(code);
        let ghost rest = all.subrange(i as int, 9);
        assert(rest[0] == all[i as int]);
        assert(rest.drop_first() =~= all.subrange(i + 1, 9));
        if contains_chars(&hay, &needle) {
            return Some(String::from_str(code));
        }
        i = i + 1;
    }
    assert(all.subrange(9, 9) =~= Seq::<Seq<char>>::empty());
    None
}

/// The blob's path within its container, taken from its URL
/// `https://{account}.blob.core.windows.net/{container}/{path}`; a URL
/// without that prefix is returned as it is.
pub open spec fn blob_path(url: Seq<char>, account: Seq<char>, container: Seq<char>) -> Seq<char> {
    let prefix = "https://"@ + account + ".blob.core.windows.net/"@ + container + "/"@;
    if url.len() >= prefix.len() && url.subrange(0, prefix.len() as int) == prefix {
        url.subrange(prefix.len() as int, url.len() as int)
    } else {
        url
    }
}

pub fn blob_path_from_url(url: &str, account: &str, container: &str) -> (r: String)
    ensures
        r@ == blob_path(url@, account@, container@),
{
    let mut prefix = String::from_str("https://");
    prefix.append(account);
    prefix.append(".blob.core.windows.net/");
    prefix.append(container);
    prefix.append("/");
    let p = chars_of(prefix.as_str());
    let u = chars_of(url);
    if u.len() < p.len() {
        return String::from_str(url);
    }
    let mut i: usize = 0;
    while i < p.len()
        invariant
            i <= p.len(),
            p.len() <= u.len(),
            u@ == url@,
            p@ == "https://"@ + account@ + ".blob.core.windows.net/"@ + container@ + "/"@,
            forall|k: int| 0 <= k < i ==> u@[k] == p@[k],
        decreases p.len() - i,
    {
        if u[i] != p[i] {
            assert(u@.subrange(0, p@.len() as int)[i as int] != p@[i as int]);
            assert(u@.subrange(0, p@.len() as int) != p@);
            return String::from_str(url);
        }
        i = i + 1;
    }
    assert(u@.subrange(0, p@.len() as int) =~= p@);
    let mut rest: Vec<char> = Vec::new();
    let mut j: usize = p.len();
    while j < u.len()
        invariant
            p.len() <= j <= u.len(),
            rest@ == u@.subrange(p.len() as int, j as int),
        decreases u.len() - j,
    {
        rest.push(u[j]);
        j = j + 1;
        assert(rest@ =~= u@.subrange(p.len() as int, j as int));
    }
    string_of(&rest)
}

} // verus!
