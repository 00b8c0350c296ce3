//! Where the vault lives: `<home>/.passman/vault.enc`.

use vstd::prelude::*;

verus! {

/// `base` followed by the relative path `part`, as `PathBuf::push` joins
/// them on Unix: a `/` goes between them unless `base` is empty or already
/// ends with one.
pub open spec fn path_join(base: Seq<char>, part: Seq<char>) -> Seq<char> {
    if base.len() == 0 || base.last() == '/' {
        base + part
    } else {
        base + seq!['/'] + part
    }
}

/// The directory of the vault under a home directory.
pub open spec fn vault_dir_of(home: Seq<char>) -> Seq<char> {
    path_join(home, ".passman"@)
}

/// The vault file under a home directory.
pub open spec fn vault_path_of(home: Seq<char>) -> Seq<char> {
    path_join(vault_dir_of(home), "vault.enc"@)
}

/// Calls `str::ends_with('/')`: whether the last character of `s` is `/`.
#[verifier::external_body]
fn ends_with_slash(s: &str) -> (r: bool)
    ensures
        r == (s@.len() > 0 && s@.last() == '/'),
{
    s.ends_with('/')
}

/// Joins `part` onto `base` as `path_join` says.
fn join(base: &str, part: &str) -> (r: String)
    ensures
        r@ == path_join(base@, part@),
{
    let mut s = String::from_str(base);
    if !base.is_empty() && !ends_with_slash(base) {
        s.append("/");
        proof {
            reveal_strlit("/");
        }
    }
    s.append(part);
    proof {
        assert(path_join(base@, part@) =~= s@);
    }
    s
}

/// The directory of the vault under the home directory `home`.
pub fn vault_dir(home: &str) -> (r: String)
    ensures
        r@ == vault_dir_of(home@),
{
    join(home, ".passman")
}

/// The vault file under the home directory `home`.
pub fn vault_path(home: &str) -> (r: String)
    ensures
        r@ == vault_path_of(home@),
{
    let dir = vault_dir(home);
    join(dir.as_str(), "vault.enc")
}

/// The vault directory is the home directory followed by `.passman`, with
/// exactly one `/` between them where the home is not empty; the vault file
/// is that directory followed by `/vault.enc`.
pub proof fn vault_location(home: Seq<char>)
    ensures
        home.len() == 0 ==> vault_dir_of(home) == ".passman"@,
        home.len() > 0 && home.last() == '/' ==> vault_dir_of(home) == home + ".passman"@,
        home.len() > 0 && home.last() != '/' ==> vault_dir_of(home) == home + "/"@ + ".passman"@,
        vault_path_of(home) == vault_dir_of(home) + "/"@ + "vault.enc"@,
{
    reveal_strlit("/");
    reveal_strlit(".passman");
    assert(seq!['/'] =~= "/"@);
    let p = ".passman"@;
    let d = vault_dir_of(home);
    if home.len() == 0 || home.last() == '/' {
        assert(d == home + p);
    } else {
        assert(d == (home + seq!['/']) + p);
    }
    assert(d.len() > 0 && d[d.len() - 1] == p[p.len() - 1]);
}

} // verus!
