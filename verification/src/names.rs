//! Table-name derivation: the resolved table name is a pure function of the
//! source's file name — never of its contents. The name is the file's base
//! name with every trailing `.csv` extension stripped and the first
//! character upper-cased (ASCII).

use vstd::prelude::*;

use crate::strutil::{upper_char, upper_letter_str};

verus! {

/// Index right after the last `/` of a path; 0 when there is none.
pub open spec fn base_start(path: Seq<char>) -> int
    decreases path.len(),
{
    if path.len() == 0 {
        0
    } else if path[path.len() - 1] == '/' {
        path.len() as int
    } else {
        base_start(path.drop_last())
    }
}

/// The base name of a path: what follows the last `/`.
pub open spec fn base_name(path: Seq<char>) -> Seq<char> {
    path.skip(base_start(path))
}

/// The name with every trailing `.csv` stripped. Only the exact lower-case
/// extension is recognised; `Orders.CSV`-style names are left whole.
pub open spec fn strip_csv(name: Seq<char>) -> Seq<char>
    decreases name.len(),
{
    if name.len() >= 4 && name.skip(name.len() - 4) == ".csv"@ {
        strip_csv(name.take(name.len() - 4))
    } else {
        name
    }
}

/// The name with its first character upper-cased (ASCII).
pub open spec fn upper_first(name: Seq<char>) -> Seq<char> {
    if name.len() == 0 {
        name
    } else {
        seq![upper_char(name[0])] + name.skip(1)
    }
}

/// The table name derived from a source's file name.
pub open spec fn derived_table_name(path: Seq<char>) -> Seq<char> {
    upper_first(strip_csv(base_name(path)))
}

proof fn lemma_base_start_bounds(path: Seq<char>)
    ensures
        0 <= base_start(path) <= path.len(),
    decreases path.len(),
{
    if path.len() > 0 && path[path.len() - 1] != '/' {
        lemma_base_start_bounds(path.drop_last());
    }
}

proof fn lemma_strip_csv_prefix(name: Seq<char>)
    ensures
        strip_csv(name).len() <= name.len(),
        strip_csv(name) == name.take(strip_csv(name).len() as int),
    decreases name.len(),
{
    if name.len() >= 4 && name.skip(name.len() - 4) == ".csv"@ {
        let head = name.take(name.len() - 4);
        lemma_strip_csv_prefix(head);
        assert(head.take(strip_csv(head).len() as int) =~= name.take(
            strip_csv(head).len() as int,
        ));
    } else {
        assert(name =~= name.take(name.len() as int));
    }
}

/// Derives the table name for a source file: base name, trailing `.csv`
/// extensions stripped, first character upper-cased.
pub fn derive_table_name(file_path: &str) -> (r: String)
    ensures
        r@ == derived_table_name(file_path@),
{
    let n = file_path.unicode_len();
    let ghost path = file_path@;
    let mut b: usize = 0;
    let mut i: usize = 0;
    while i < n
        invariant
            i <= n,
            n == path.len(),
            path == file_path@,
            b as int == base_start(path.take(i as int)),
            b <= i,
        decreases n - i,
    {
        proof {
            let cur = path.take(i + 1);
            assert(cur[cur.len() - 1] == path[i as int]);
            assert(cur.drop_last() =~= path.take(i as int));
        }
        if file_path.get_char(i) == '/' {
            b = i + 1;
        }
        i += 1;
    }
    proof {
        assert(path.take(n as int) =~= path);
    }
    let ghost w = base_name(path);
    proof {
        assert(w == path.skip(b as int));
        assert(w.len() == n - b);
    }
    let mut e: usize = n;
    proof {
        assert(w.take(n - b) =~= w);
    }
    loop
        invariant
            b <= e <= n,
            n == path.len(),
            path == file_path@,
            b as int == base_start(path),
            w == path.skip(b as int),
            strip_csv(w) == strip_csv(w.take(e - b)),
        ensures
            b <= e <= n,
            strip_csv(w) == w.take(e - b),
        decreases e,
    {
        proof {
            reveal_strlit(".csv");
        }
        let m = e - b;
        let ghost cur = w.take(m as int);
        proof {
            assert(forall|k: int| 0 <= k < m ==> #[trigger] cur[k] == path[b + k]);
        }
        if m >= 4 && file_path.get_char(e - 4) == '.' && file_path.get_char(e - 3) == 'c'
            && file_path.get_char(e - 2) == 's' && file_path.get_char(e - 1) == 'v' {
            proof {
                assert(cur.skip(m - 4) =~= ".csv"@);
                assert(cur.take(m - 4) =~= w.take(m - 4));
            }
            e = e - 4;
        } else {
            proof {
                if m >= 4 && cur.skip(m - 4) == ".csv"@ {
                    assert(cur[m - 4] == '.' && cur[m - 3] == 'c' && cur[m - 2] == 's' && cur[m
                        - 1] == 'v') by {
                        assert(cur.skip(m - 4)[0] == cur[m - 4]);
                        assert(cur.skip(m - 4)[1] == cur[m - 3]);
                        assert(cur.skip(m - 4)[2] == cur[m - 2]);
                        assert(cur.skip(m - 4)[3] == cur[m - 1]);
                    }
                }
                assert(strip_csv(cur) == cur);
            }
            break;
        }
    }
    let m = e - b;
    let ghost stripped = strip_csv(w);
    proof {
        assert(stripped == w.take(m as int));
        assert(forall|k: int| 0 <= k < m ==> #[trigger] stripped[k] == path[b + k]);
    }
    if m == 0 {
        let r = String::new();
        proof {
            assert(derived_table_name(path) =~= Seq::<char>::empty());
        }
        return r;
    }
    let c = file_path.get_char(b);
    match upper_letter_str(c) {
        Some(u) => {
            let rest = file_path.substring_char(b + 1, e);
            let mut out = u.to_owned();
            out.append(rest);
            proof {
                assert(rest@ =~= stripped.skip(1));
                assert(out@ =~= derived_table_name(path));
            }
            out
        },
        None => {
            let out = file_path.substring_char(b, e).to_owned();
            proof {
                assert(out@ =~= stripped);
                assert(derived_table_name(path) =~= stripped);
            }
            out
        },
    }
}

} // verus!
