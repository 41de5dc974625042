//! Path string manipulation: locating the last path separator or extension
//! dot, the parent directory of a path, and the backup path a pre-existing
//! target is renamed to. The backup path replaces the target's extension
//! component with `backup.<timestamp>` (so `a/b.conf` becomes
//! `a/b.backup.<timestamp>`, and a dotfile such as `.vimrc`, having no
//! extension, becomes `.vimrc.backup.<timestamp>`).

use vstd::prelude::*;

verus! {

/// The largest index of `c` in `s`, or `-1` if `c` does not occur.
pub open spec fn last_index_of(s: Seq<char>, c: char) -> int
    decreases s.len(),
{
    if s.len() == 0 {
        -1
    } else if s[s.len() - 1] == c {
        s.len() - 1
    } else {
        last_index_of(s.take(s.len() - 1), c)
    }
}

/// What `last_index_of` returns: an in-range index of `c` after which `c`
/// does not occur again, or `-1` when `c` does not occur at all.
pub proof fn lemma_last_index_of(s: Seq<char>, c: char)
    ensures
        -1 <= last_index_of(s, c) < s.len(),
        last_index_of(s, c) >= 0 ==> s[last_index_of(s, c)] == c,
        forall|j: int| last_index_of(s, c) < j < s.len() ==> s[j] != c,
    decreases s.len(),
{
    if s.len() == 0 {
    } else if s[s.len() - 1] == c {
    } else {
        lemma_last_index_of(s.take(s.len() - 1), c);
        assert(forall|j: int|
            0 <= j < s.len() - 1 ==> s.take(s.len() - 1)[j] == s[j]);
    }
}

/// The parent directory of `p`: everything before the last `/`, the root
/// `/` itself when the last `/` is leading, and the empty string for a
/// bare file name.
pub open spec fn spec_parent_of(p: Seq<char>) -> Seq<char> {
    let d = last_index_of(p, '/');
    if d <= -1 {
        Seq::<char>::empty()
    } else if d == 0 {
        seq!['/']
    } else {
        p.take(d)
    }
}

/// A proper path's parent is strictly shorter than the path.
pub proof fn lemma_parent_of_shorter(p: Seq<char>)
    requires
        p.len() > 0,
        p != seq!['/'],
    ensures
        spec_parent_of(p).len() < p.len(),
{
    lemma_last_index_of(p, '/');
    let d = last_index_of(p, '/');
    if d == 0 && p.len() == 1 {
        assert(p =~= seq!['/']);
    }
}

/// The backup path for `target`: the file name's extension component is
/// replaced by `backup.<timestamp>`; a name without an extension (including
/// a leading-dot name such as `.vimrc`) gets it appended.
pub open spec fn spec_backup_path(target: Seq<char>, timestamp: Seq<char>) -> Seq<char> {
    let d = last_index_of(target, '/');
    let name = target.skip(d + 1);
    let dot = last_index_of(name, '.');
    let stem = if dot <= 0 {
        name
    } else {
        name.take(dot)
    };
    target.take(d + 1) + stem + ".backup."@ + timestamp
}

/// The backup path is never the target itself: its name always carries a
/// `.backup.` component that the target's own extension cannot contain.
pub proof fn lemma_backup_path_ne(target: Seq<char>, timestamp: Seq<char>)
    ensures
        spec_backup_path(target, timestamp) != target,
{
    lemma_last_index_of(target, '/');
    let d = last_index_of(target, '/');
    let name = target.skip(d + 1);
    let dot = last_index_of(name, '.');
    lemma_last_index_of(name, '.');
    let stem = if dot <= 0 {
        name
    } else {
        name.take(dot)
    };
    let bp = spec_backup_path(target, timestamp);
    reveal_strlit(".backup.");
    if bp == target {
        // The directory prefixes agree, so the names must agree as well.
        assert(target =~= target.take(d + 1) + name);
        let bname = stem + ".backup."@ + timestamp;
        assert(bp == target.take(d + 1) + bname);
        assert(forall|j: int|
            0 <= j < name.len() ==> target[d + 1 + j] == name[j]);
        assert(forall|j: int|
            0 <= j < bname.len() ==> bp[d + 1 + j] == bname[j]);
        assert(name.len() == bname.len());
        assert(forall|j: int| 0 <= j < name.len() ==> name[j] == bname[j]);
        if dot <= 0 {
            // bname is strictly longer than name: contradiction with equal length.
            assert(bname.len() == name.len() + 8 + timestamp.len());
        } else {
            // name has no '.' after position dot, yet bname has one at dot + 7.
            assert(bname.len() == dot + 8 + timestamp.len());
            assert(bname[dot + 7] == (".backup."@)[7]);
            assert((".backup."@)[7] == '.');
            assert(name[dot + 7] != '.');
        }
    }
}

/// The backup path is strictly longer than the target's parent directory,
/// and than any ancestor of it; directory creation therefore never collides
/// with a backup.
pub proof fn lemma_backup_path_longer_than_parent(target: Seq<char>, timestamp: Seq<char>)
    ensures
        spec_backup_path(target, timestamp).len() > spec_parent_of(target).len(),
{
    lemma_last_index_of(target, '/');
    let d = last_index_of(target, '/');
    let name = target.skip(d + 1);
    let dot = last_index_of(name, '.');
    lemma_last_index_of(name, '.');
    reveal_strlit(".backup.");
}

/// The exact character index of the last occurrence of `c` in `s`, or
/// `None` when `c` does not occur.
pub fn last_char_index(s: &str, c: char) -> (r: Option<usize>)
    ensures
        match r {
            Some(k) => k < s@.len() && last_index_of(s@, c) == k as int,
            None => last_index_of(s@, c) == -1,
        },
{
    let n = s.unicode_len();
    let mut i: usize = 0;
    let mut best: Option<usize> = None;
    while i < n
        invariant
            i <= n,
            n == s@.len(),
            match best {
                Some(k) => k < i && last_index_of(s@.take(i as int), c) == k as int,
                None => last_index_of(s@.take(i as int), c) == -1,
            },
        decreases n - i,
    {
        let ch = s.get_char(i);
        proof {
            assert(s@.take(i + 1).take(i as int) =~= s@.take(i as int));
            assert(s@.take(i + 1)[i as int] == s@[i as int]);
        }
        if ch == c {
            best = Some(i);
        }
        i = i + 1;
    }
    proof {
        assert(s@.take(n as int) =~= s@);
    }
    best
}

/// The parent directory of `p`, as `spec_parent_of` describes it.
pub fn parent_dir(p: &str) -> (r: String)
    ensures
        r@ == spec_parent_of(p@),
{
    match last_char_index(p, '/') {
        None => String::new(),
        Some(d) => {
            if d == 0 {
                let r = "/".to_owned();
                proof {
                    reveal_strlit("/");
                    assert(r@ =~= seq!['/']);
                }
                r
            } else {
                p.substring_char(0, d).to_owned()
            }
        },
    }
}

/// The backup path for `target`, as `spec_backup_path` describes it.
pub fn backup_path(target: &String, timestamp: &String) -> (r: String)
    ensures
        r@ == spec_backup_path(target@, timestamp@),
{
    let t = target.as_str();
    let n = t.unicode_len();
    let name_start: usize = match last_char_index(t, '/') {
        Some(d) => d + 1,
        None => 0,
    };
    let name = t.substring_char(name_start, n);
    let stem_len: usize = match last_char_index(name, '.') {
        Some(dot) => {
            if dot == 0 {
                n - name_start
            } else {
                dot
            }
        },
        None => n - name_start,
    };
    let mut out = t.substring_char(0, name_start + stem_len).to_owned();
    out.append(".backup.");
    out.append(timestamp.as_str());
    proof {
        let d = last_index_of(target@, '/');
        lemma_last_index_of(target@, '/');
        assert(name@ =~= target@.skip(d + 1));
        let dot = last_index_of(name@, '.');
        lemma_last_index_of(name@, '.');
        let stem = if dot <= 0 {
            name@
        } else {
            name@.take(dot)
        };
        assert(t@.take(name_start + stem_len as int) =~= target@.take(d + 1) + stem);
        assert(out@ =~= spec_backup_path(target@, timestamp@));
    }
    out
}

} // verus!
