use vstd::prelude::*;

verus! {

/// The index of the last `/` in `s`, or `-1` when `s` holds none.
pub open spec fn last_slash_index(s: Seq<char>) -> int
    decreases s.len(),
{
    if s.len() == 0 {
        -1
    } else if s[s.len() - 1] == '/' {
        s.len() - 1
    } else {
        last_slash_index(s.drop_last())
    }
}

/// The absolute path of entry `name` inside directory `dir`: the two joined
/// by a single separator, except directly under the root.
pub open spec fn join_spec(dir: Seq<char>, name: Seq<char>) -> Seq<char> {
    if dir == seq!['/'] {
        dir + name
    } else {
        dir + seq!['/'] + name
    }
}

/// The parent of a path: everything before the last separator, or the root
/// when dropping the last segment leaves nothing.
pub open spec fn parent_spec(p: Seq<char>) -> Seq<char> {
    if last_slash_index(p) <= 0 {
        seq!['/']
    } else {
        p.subrange(0, last_slash_index(p))
    }
}

/// Whether `s` is exactly the filesystem root `/`.
pub fn is_root(s: &String) -> (r: bool)
    ensures
        r == (s@ == seq!['/']),
{
    let st: &str = s.as_str();
    if st.unicode_len() == 1 {
        let c = st.get_char(0);
        proof {
            if c == '/' {
                assert(s@ =~= seq!['/']);
            } else {
                assert(seq!['/'][0] == '/');
            }
        }
        c == '/'
    } else {
        proof {
            assert(seq!['/'].len() == 1);
        }
        false
    }
}

/// Joins a directory and an entry name into one absolute path.
pub fn join(dir: &String, name: &String) -> (r: String)
    ensures
        r@ == join_spec(dir@, name@),
{
    if is_root(dir) {
        dir.clone().concat(name.as_str())
    } else {
        proof {
            reveal_strlit("/");
            assert("/"@ =~= seq!['/']);
        }
        dir.clone().concat("/").concat(name.as_str())
    }
}

/// Computes the parent directory of a path by dropping its final segment;
/// a path without a separator, or with its only separator in front, has the
/// root as its parent.
pub fn parent_of(p: &String) -> (r: String)
    ensures
        r@ == parent_spec(p@),
{
    let st: &str = p.as_str();
    let len: usize = st.unicode_len();
    let mut i: usize = len;
    proof {
        assert(p@.subrange(0, len as int) =~= p@);
    }
    while i > 0 && st.get_char(i - 1) != '/'
        invariant
            i <= len,
            len == p@.len(),
            st@ == p@,
            last_slash_index(p@) == last_slash_index(p@.subrange(0, i as int)),
        decreases i,
    {
        proof {
            assert(p@.subrange(0, i as int).drop_last() =~= p@.subrange(0, i - 1));
        }
        i = i - 1;
    }
    if i <= 1 {
        proof {
            if i == 0 {
                assert(p@.subrange(0, 0) =~= Seq::<char>::empty());
            }
            reveal_strlit("/");
            assert("/"@ =~= seq!['/']);
        }
        String::from_str("/")
    } else {
        st.substring_char(0, i - 1).to_owned()
    }
}

/// Law: entering an entry and then computing the parent returns to the
/// directory one started from, for any entry name free of separators.
pub proof fn lemma_parent_of_join(dir: Seq<char>, name: Seq<char>)
    requires
        dir.len() > 0,
        dir[0] == '/',
        name.len() > 0,
        forall|k: int| 0 <= k < name.len() ==> name[k] != '/',
    ensures
        parent_spec(join_spec(dir, name)) == dir,
{
    let j = join_spec(dir, name);
    if dir == seq!['/'] {
        assert forall|k: int| 1 <= k < j.len() implies j[k] != '/' by {
            assert(j[k] == name[k - 1]);
        }
        lemma_last_slash_in_prefix(j, 1);
        let q = j.subrange(0, 1);
        assert(q =~= seq!['/']);
        assert(last_slash_index(q) == 0);
        assert(parent_spec(j) == seq!['/']);
    } else {
        let dl = dir.len() as int;
        assert(j[dl] == '/');
        assert forall|k: int| dl + 1 <= k < j.len() implies j[k] != '/' by {
            assert(j[k] == name[k - dl - 1]);
        }
        lemma_last_slash_in_prefix(j, dl + 1);
        let q = j.subrange(0, dl + 1);
        assert(q[q.len() - 1] == '/');
        assert(last_slash_index(q) == dl);
        assert(last_slash_index(j) == dl);
        assert(j.subrange(0, dl) =~= dir);
    }
}

/// With no separator anywhere at or after position `j`, the last separator
/// of the whole string is the last separator of its prefix of length `j`.
proof fn lemma_last_slash_in_prefix(p: Seq<char>, j: int)
    requires
        0 <= j <= p.len(),
        forall|k: int| j <= k < p.len() ==> p[k] != '/',
    ensures
        last_slash_index(p) == last_slash_index(p.subrange(0, j)),
    decreases p.len() - j,
{
    if j == p.len() {
        assert(p.subrange(0, j) =~= p);
    } else {
        lemma_last_slash_in_prefix(p, j + 1);
        let q = p.subrange(0, j + 1);
        assert(q[q.len() - 1] == p[j]);
        assert(q.drop_last() =~= p.subrange(0, j));
    }
}

} // verus!
