//! Template rendering: every literal occurrence of the fixed token
//! `{{HOME}}` in a source text is replaced by the home-directory value,
//! scanning left to right without overlap; all other content is kept
//! unchanged. No other template syntax exists.

use vstd::prelude::*;

verus! {

/// The one placeholder token the renderer recognises.
pub open spec fn home_token() -> Seq<char> {
    "{{HOME}}"@
}

/// The rendered form of `s`: each occurrence of `{{HOME}}`, found scanning
/// left to right, becomes `home`; every other character is kept.
pub open spec fn spec_render(s: Seq<char>, home: Seq<char>) -> Seq<char>
    decreases s.len(),
{
    if s.len() >= 8 && s.take(8) == home_token() {
        home + spec_render(s.skip(8), home)
    } else if s.len() == 0 {
        s
    } else {
        s.take(1) + spec_render(s.skip(1), home)
    }
}

/// A text without the token renders to itself.
pub proof fn lemma_render_token_free(s: Seq<char>, home: Seq<char>)
    requires
        forall|i: int, j: int|
            0 <= i && j == i + 8 && j <= s.len() ==> #[trigger] s.subrange(i, j) != home_token(),
    ensures
        spec_render(s, home) == s,
    decreases s.len(),
{
    if s.len() >= 8 && s.take(8) == home_token() {
        assert(s.subrange(0, 8) =~= s.take(8));
    } else if s.len() == 0 {
    } else {
        assert forall|i: int, j: int|
            0 <= i && j == i + 8 && j <= s.skip(1).len() implies #[trigger] s.skip(1).subrange(
            i,
            j,
        ) != home_token() by {
            assert(s.skip(1).subrange(i, j) =~= s.subrange(i + 1, i + 1 + 8));
        }
        lemma_render_token_free(s.skip(1), home);
        assert(s.take(1) + s.skip(1) =~= s);
    }
}

/// Whether the token starts at character position `at` of `s`.
fn token_at(s: &str, at: usize, n: usize) -> (r: bool)
    requires
        n == s@.len(),
        at < n,
    ensures
        r <==> (at + 8 <= s@.len() && s@.subrange(at as int, at + 8) == home_token()),
{
    proof {
        reveal_strlit("{{HOME}}");
    }
    if n - at < 8 {
        return false;
    }
    let r = s.get_char(at) == '{' && s.get_char(at + 1) == '{' && s.get_char(at + 2) == 'H'
        && s.get_char(at + 3) == 'O' && s.get_char(at + 4) == 'M' && s.get_char(at + 5) == 'E'
        && s.get_char(at + 6) == '}' && s.get_char(at + 7) == '}';
    proof {
        let sub = s@.subrange(at as int, at + 8);
        assert(sub[0] == s@[at as int] && sub[1] == s@[at + 1] && sub[2] == s@[at + 2] && sub[3]
            == s@[at + 3] && sub[4] == s@[at + 4] && sub[5] == s@[at + 5] && sub[6] == s@[at + 6]
            && sub[7] == s@[at + 7]);
        if r {
            assert(sub =~= home_token());
        } else {
            if sub == home_token() {
                assert(sub[0] == '{' && sub[1] == '{' && sub[2] == 'H' && sub[3] == 'O' && sub[4]
                    == 'M' && sub[5] == 'E' && sub[6] == '}' && sub[7] == '}');
            }
        }
    }
    r
}

/// Renders `content` by substituting `home` for each occurrence of
/// `{{HOME}}`, exactly as `spec_render` describes.
pub fn render_template_content(content: &String, home: &String) -> (r: String)
    ensures
        r@ == spec_render(content@, home@),
{
    let s = content.as_str();
    let n = s.unicode_len();
    let mut out = String::new();
    let mut i: usize = 0;
    proof {
        assert(s@.skip(0) =~= s@);
        assert(out@ + spec_render(s@, home@) =~= spec_render(s@, home@));
    }
    while i < n
        invariant
            i <= n,
            n == s@.len(),
            spec_render(s@, home@) == out@ + spec_render(s@.skip(i as int), home@),
        decreases n - i,
    {
        let ghost rest = s@.skip(i as int);
        if token_at(s, i, n) {
            out.append(home.as_str());
            proof {
                assert(rest.take(8) =~= s@.subrange(i as int, i + 8));
                assert(rest.skip(8) =~= s@.skip(i + 8));
                assert(spec_render(rest, home@) == home@ + spec_render(s@.skip(i + 8), home@));
                assert(out@ + spec_render(s@.skip(i + 8), home@) =~= spec_render(s@, home@));
            }
            i = i + 8;
        } else {
            let c = s.substring_char(i, i + 1);
            out.append(c);
            proof {
                assert(rest.len() > 0);
                if rest.len() >= 8 {
                    assert(rest.take(8) =~= s@.subrange(i as int, i + 8));
                }
                assert(rest.take(1) =~= s@.subrange(i as int, i + 1));
                assert(rest.skip(1) =~= s@.skip(i + 1));
                assert(spec_render(rest, home@) == rest.take(1) + spec_render(
                    s@.skip(i + 1),
                    home@,
                ));
                assert(out@ + spec_render(s@.skip(i + 1), home@) =~= spec_render(s@, home@));
            }
            i = i + 1;
        }
    }
    proof {
        assert(s@.skip(n as int) =~= Seq::<char>::empty());
        assert(out@ =~= out@ + spec_render(s@.skip(n as int), home@));
    }
    out
}

} // verus!
