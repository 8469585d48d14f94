//! Where the wallet lives: the directory and the wallet name from the
//! wallet file's canonical path, and `~/` expansion. Paths are Unix paths
//! held as text.

use vstd::prelude::*;
use crate::text::{chars_of, push_str, string_of};

verus! {

/// The suffix of a wallet's key file.
pub open spec fn keys_suffix() -> Seq<char> {
    seq!['.', 'k', 'e', 'y', 's']
}

/// `s` without every trailing `.keys` (`str::trim_end_matches(".keys")`).
pub open spec fn strip_keys(s: Seq<char>) -> Seq<char>
    decreases s.len(),
{
    if s.len() >= 5 && s.skip(s.len() - 5) == keys_suffix() {
        strip_keys(s.take(s.len() - 5))
    } else {
        s
    }
}

/// The index of the last `/` in `p`, or -1.
pub open spec fn last_slash(p: Seq<char>) -> int
    decreases p.len(),
{
    if p.len() == 0 {
        -1
    } else if p.last() == '/' {
        p.len() - 1
    } else {
        last_slash(p.drop_last())
    }
}

/// The directory and the wallet name of a wallet file path as
/// `Path::canonicalize` leaves it (absolute, without `.`, `..` or empty
/// components): the text before the last `/` (the root for a file in the
/// root, nothing for a bare name), and the file name after it without
/// `.keys`. Nothing when no file name follows the last `/`, as for the root.
pub open spec fn wallet_location(p: Seq<char>) -> Option<(Seq<char>, Seq<char>)> {
    let k = last_slash(p);
    let name = p.skip(k + 1);
    if name.len() == 0 {
        None
    } else {
        Some(
            (
                if k == -1 {
                    Seq::empty()
                } else if k == 0 {
                    seq!['/']
                } else {
                    p.take(k)
                },
                strip_keys(name),
            ),
        )
    }
}

proof fn lemma_last_slash_at(p: Seq<char>, k: int)
    requires
        -1 <= k < p.len(),
        k >= 0 ==> p[k] == '/',
        forall|i: int| k < i < p.len() ==> p[i] != '/',
    ensures
        last_slash(p) == k,
    decreases p.len(),
{
    if p.len() > 0 && p.len() - 1 != k {
        lemma_last_slash_at(p.drop_last(), k);
    }
}

/// `v[0..end]` without every trailing `.keys`: the end of what is left.
fn strip_keys_end(v: &Vec<char>, from: usize) -> (end: usize)
    requires
        from <= v@.len(),
    ensures
        from <= end <= v@.len(),
        v@.subrange(from as int, end as int) == strip_keys(v@.subrange(from as int, v@.len() as int)),
{
    let mut end = v.len();
    while end - from >= 5 && v[end - 5] == '.' && v[end - 4] == 'k' && v[end - 3] == 'e' && v[end
        - 2] == 'y' && v[end - 1] == 's'
        invariant
            from <= end <= v@.len(),
            strip_keys(v@.subrange(from as int, end as int)) == strip_keys(
                v@.subrange(from as int, v@.len() as int),
            ),
        decreases end,
    {
        proof {
            let s = v@.subrange(from as int, end as int);
            assert(s.skip(s.len() - 5) =~= keys_suffix());
            assert(s.take(s.len() - 5) =~= v@.subrange(from as int, end - 5));
        }
        end = end - 5;
    }
    proof {
        let s = v@.subrange(from as int, end as int);
        if s.len() >= 5 && s.skip(s.len() - 5) == keys_suffix() {
            assert(s.skip(s.len() - 5)[0] == v@[end - 5]);
            assert(s.skip(s.len() - 5)[1] == v@[end - 4]);
            assert(s.skip(s.len() - 5)[2] == v@[end - 3]);
            assert(s.skip(s.len() - 5)[3] == v@[end - 2]);
            assert(s.skip(s.len() - 5)[4] == v@[end - 1]);
        }
    }
    end
}

/// The wallet name of the wallet file named `file_name`: the name without
/// every trailing `.keys`.
pub fn wallet_name(file_name: &str) -> (r: String)
    ensures
        r@ == strip_keys(file_name@),
{
    let v = chars_of(file_name);
    let end = strip_keys_end(&v, 0);
    proof {
        assert(v@.subrange(0, v@.len() as int) =~= v@);
    }
    string_of(&v, 0, end)
}

/// Splits the canonical path of a wallet file into its directory and the
/// wallet name: the file name without its `.keys` suffix. `None` when no
/// file name follows the last `/`, as for the root.
pub fn split_wallet_path(path: &str) -> (r: Option<(String, String)>)
    ensures
        match wallet_location(path@) {
            Some((dir, name)) => r matches Some((d, w)) && d@ == dir && w@ == name,
            None => r is None,
        },
{
    let v = chars_of(path);
    let n = v.len();
    let mut k = n;
    while k > 0 && v[k - 1] != '/'
        invariant
            k <= n == v@.len(),
            forall|i: int| k <= i < n ==> v@[i] != '/',
        decreases k,
    {
        k = k - 1;
    }
    proof {
        lemma_last_slash_at(v@, k - 1);
        assert(v@.skip(k as int) =~= v@.subrange(k as int, n as int));
    }
    if k == n {
        return None;
    }
    let end = strip_keys_end(&v, k);
    let name = string_of(&v, k, end);
    let dir = if k == 0 {
        String::new()
    } else if k == 1 {
        proof {
            assert(v@.take(0) =~= Seq::<char>::empty());
        }
        string_of(&v, 0, 1)
    } else {
        string_of(&v, 0, k - 1)
    };
    proof {
        if k == 0 {
        } else if k == 1 {
            assert(v@.subrange(0, 1) =~= seq!['/']);
        } else {
            assert(v@.subrange(0, k - 1) =~= v@.take(k - 1));
        }
    }
    Some((dir, name))
}

/// `home` joined with the relative part `rest` as `PathBuf::join` joins on
/// Unix: an absolute `rest` replaces `home`, and one `/` separates them
/// unless `home` is empty or already ends with one.
pub open spec fn join_path(home: Seq<char>, rest: Seq<char>) -> Seq<char> {
    if rest.len() > 0 && rest[0] == '/' {
        rest
    } else if home.len() == 0 || home.last() == '/' {
        home + rest
    } else {
        home + seq!['/'] + rest
    }
}

/// `path` with a leading `~/` read as the home directory, when it is known.
pub open spec fn expanded(path: Seq<char>, home: Option<Seq<char>>) -> Seq<char> {
    if path.len() >= 2 && path[0] == '~' && path[1] == '/' && home is Some {
        join_path(home->0, path.skip(2))
    } else {
        path
    }
}

/// Expands a leading `~/` to the home directory `home`, when it is known.
pub fn expand_tilde(path: &str, home: Option<&str>) -> (r: String)
    ensures
        r@ == expanded(path@, match home {
            Some(h) => Some(h@),
            None => None,
        }),
{
    let v = chars_of(path);
    let n = v.len();
    if n >= 2 && v[0] == '~' && v[1] == '/' {
        match home {
            Some(h) => {
                let rest = string_of(&v, 2, n);
                proof {
                    assert(v@.subrange(2, n as int) =~= v@.skip(2));
                }
                if n > 2 && v[2] == '/' {
                    return rest;
                }
                let hv = chars_of(h);
                let mut r = string_of(&hv, 0, hv.len());
                proof {
                    assert(hv@.subrange(0, hv@.len() as int) =~= hv@);
                }
                if hv.len() > 0 && hv[hv.len() - 1] != '/' {
                    push_str(&mut r, "/");
                    proof {
                        reveal_strlit("/");
                    }
                }
                push_str(&mut r, rest.as_str());
                r
            },
            None => string_of(&v, 0, n),
        }
    } else {
        let r = string_of(&v, 0, n);
        proof {
            assert(v@.subrange(0, n as int) =~= v@);
        }
        r
    }
}

} // verus!
