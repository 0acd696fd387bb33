//! Presentation of the working directory.
//!
//! Two transforms apply to an absolute path before display: collapsing
//! a leading home-directory prefix into `~`, and shortening every
//! directory level above the last one to its leading characters.
//!
//! The shortening scan walks the characters once. A slash or a dot
//! re-arms the scan; the first ordinary character of a level is kept
//! and the rest are dropped, except in the last level, which is kept
//! whole. A tilde is kept only while the scan is armed.

use vstd::prelude::*;
use crate::style::{ColorName, StyledString};
use crate::text::{chars_of, string_of};

verus! {

/// What to do with a leading home-directory prefix.
#[derive(Clone, Copy, PartialEq, Eq, Structural, Debug)]
pub enum TildeMode {
    /// Replace the home prefix, once, at the start, with `~`.
    CollapseHome,
    /// Leave the path exactly as given.
    KeepLiteral,
}

/// How the working directory is displayed.
#[derive(Clone, Copy, PartialEq, Eq, Structural, Debug)]
pub struct PresentationOptions {
    pub tilde: TildeMode,
    pub shorten: bool,
    pub color: ColorName,
}

/// The path with a leading non-empty `home` prefix replaced by `~`;
/// the path unchanged when the prefix is absent or empty.
pub open spec fn collapse_home_spec(p: Seq<char>, home: Seq<char>) -> Seq<char> {
    if home.len() > 0 && p.len() >= home.len() && p.subrange(0, home.len() as int) == home {
        seq!['~'] + p.skip(home.len() as int)
    } else {
        p
    }
}

/// How many levels lie above the current one: the number of slashes.
pub open spec fn count_slashes(s: Seq<char>) -> int
    decreases s.len(),
{
    if s.len() == 0 {
        0
    } else {
        (if s[0] == '/' { 1int } else { 0int }) + count_slashes(s.skip(1))
    }
}

/// One step of the shortening scan, from a given scan state:
/// `armed` is false right after a slash or a dot (the next ordinary
/// character will be kept), `count` slashes have been passed, out of
/// `sections` in the whole path.
pub open spec fn shorten_from(s: Seq<char>, armed: bool, count: int, sections: int) -> Seq<char>
    decreases s.len(),
{
    if s.len() == 0 {
        Seq::empty()
    } else {
        let c = s[0];
        let rest = s.skip(1);
        if c == '~' {
            if armed {
                shorten_from(rest, armed, count, sections)
            } else {
                seq![c] + shorten_from(rest, armed, count, sections)
            }
        } else if c == '.' {
            seq![c] + shorten_from(rest, false, count, sections)
        } else if c == '/' {
            seq![c] + shorten_from(rest, false, count + 1, sections)
        } else if armed && count < sections {
            shorten_from(rest, armed, count, sections)
        } else {
            seq![c] + shorten_from(rest, true, count, sections)
        }
    }
}

/// The shortened form of a whole path.
pub open spec fn shorten_spec(s: Seq<char>) -> Seq<char> {
    shorten_from(s, false, 0, count_slashes(s))
}

/// The tilde transform a mode calls for.
pub open spec fn tilde_stage(p: Seq<char>, home: Seq<char>, mode: TildeMode) -> Seq<char> {
    match mode {
        TildeMode::CollapseHome => collapse_home_spec(p, home),
        TildeMode::KeepLiteral => p,
    }
}

/// The display text of the working directory under the given options.
pub open spec fn present_spec(p: Seq<char>, home: Seq<char>, opts: PresentationOptions) -> Seq<
    char,
> {
    if opts.shorten {
        shorten_spec(tilde_stage(p, home, opts.tilde))
    } else {
        tilde_stage(p, home, opts.tilde)
    }
}

/// Replace a leading non-empty `home` prefix of `path` with `~`.
pub fn collapse_home(path: &str, home: &str) -> (r: String)
    ensures
        r@ == collapse_home_spec(path@, home@),
{
    let p = chars_of(path);
    let h = chars_of(home);
    if h.len() == 0 || p.len() < h.len() {
        return path.to_owned();
    }
    let mut j: usize = 0;
    while j < h.len()
        invariant
            p@ == path@,
            h@ == home@,
            h@.len() <= p@.len(),
            0 <= j <= h.len(),
            forall|k: int| 0 <= k < j ==> p@[k] == h@[k],
        decreases h.len() - j,
    {
        if p[j] != h[j] {
            proof {
                assert(p@.subrange(0, h@.len() as int)[j as int] == p@[j as int]);
            }
            return path.to_owned();
        }
        j = j + 1;
    }
    proof {
        assert(p@.subrange(0, h@.len() as int) =~= h@);
    }
    let mut out: Vec<char> = Vec::new();
    out.push('~');
    let mut k: usize = h.len();
    while k < p.len()
        invariant
            p@ == path@,
            h@ == home@,
            h@.len() <= k <= p@.len(),
            out@ == seq!['~'] + p@.subrange(h@.len() as int, k as int),
        decreases p.len() - k,
    {
        out.push(p[k]);
        proof {
            assert(out@ =~= seq!['~'] + p@.subrange(h@.len() as int, k + 1));
        }
        k = k + 1;
    }
    proof {
        assert(p@.subrange(h@.len() as int, p@.len() as int) =~= p@.skip(h@.len() as int));
    }
    string_of(&out)
}

proof fn lemma_count_slashes_nonneg(s: Seq<char>)
    ensures
        count_slashes(s) >= 0,
    decreases s.len(),
{
    if s.len() > 0 {
        lemma_count_slashes_nonneg(s.skip(1));
    }
}

fn count_slashes_exec(v: &Vec<char>) -> (n: usize)
    ensures
        n as int == count_slashes(v@),
{
    let mut n: usize = 0;
    let mut i: usize = 0;
    proof {
        assert(v@.skip(0) =~= v@);
    }
    while i < v.len()
        invariant
            0 <= i <= v.len(),
            n <= i,
            n as int + count_slashes(v@.skip(i as int)) == count_slashes(v@),
        decreases v.len() - i,
    {
        proof {
            assert(v@.skip(i as int)[0] == v@[i as int]);
            assert(v@.skip(i as int).skip(1) =~= v@.skip(i + 1));
        }
        if v[i] == '/' {
            n = n + 1;
        }
        i = i + 1;
    }
    proof {
        assert(v@.skip(v@.len() as int) =~= Seq::<char>::empty());
    }
    n
}

/// Shorten every level of the path above the last one.
pub fn shorten_path(path: &str) -> (r: String)
    ensures
        r@ == shorten_spec(path@),
{
    let v = chars_of(path);
    let sections = count_slashes_exec(&v);
    let mut out: Vec<char> = Vec::new();
    let mut armed = false;
    let mut count: usize = 0;
    let mut i: usize = 0;
    proof {
        assert(v@.skip(0) =~= v@);
    }
    while i < v.len()
        invariant
            v@ == path@,
            0 <= i <= v.len(),
            count as int + count_slashes(v@.skip(i as int)) == sections as int,
            out@ + shorten_from(v@.skip(i as int), armed, count as int, sections as int)
                == shorten_spec(path@),
        decreases v.len() - i,
    {
        let c = v[i];
        let ghost pre = v@.skip(i as int);
        let ghost out0 = out@;
        let ghost armed0 = armed;
        let ghost count0 = count as int;
        proof {
            assert(pre[0] == v@[i as int]);
            assert(pre.skip(1) =~= v@.skip(i + 1));
            lemma_count_slashes_nonneg(pre.skip(1));
        }
        if c == '~' {
            if !armed {
                out.push(c);
            }
        } else if c == '.' {
            out.push(c);
            armed = false;
        } else if c == '/' {
            out.push(c);
            armed = false;
            count = count + 1;
        } else if armed && count < sections {
            // dropped: not the first ordinary character of an upper level
        } else {
            out.push(c);
            armed = true;
        }
        proof {
            let tail = shorten_from(v@.skip(i + 1), armed, count as int, sections as int);
            assert(shorten_from(pre, armed0, count0, sections as int) == out@.skip(
                out0.len() as int,
            ) + tail) by {
                if out@.len() > out0.len() {
                    assert(out@ == out0.push(pre[0]));
                    assert(out@.skip(out0.len() as int) =~= seq![pre[0]]);
                } else {
                    assert(out@.skip(out0.len() as int) =~= Seq::<char>::empty());
                }
            }
            assert(out@ + tail =~= out0 + (out@.skip(out0.len() as int) + tail));
        }
        i = i + 1;
    }
    proof {
        assert(v@.skip(v@.len() as int) =~= Seq::<char>::empty());
        assert(out@ + Seq::<char>::empty() =~= out@);
    }
    string_of(&out)
}

/// Display the working directory: collapse the home prefix if the mode
/// says so, shorten if asked, and carry the configured color.
pub fn present(path: &str, home: &str, opts: &PresentationOptions) -> (r: StyledString)
    ensures
        r.text@ == present_spec(path@, home@, *opts),
        r.color == opts.color,
        r.dim == false,
{
    let base = match opts.tilde {
        TildeMode::CollapseHome => collapse_home(path, home),
        TildeMode::KeepLiteral => path.to_owned(),
    };
    let text = if opts.shorten {
        shorten_path(base.as_str())
    } else {
        base
    };
    StyledString { text, color: opts.color, dim: false }
}

/// A path with a non-empty `home` prefix collapses to `~` followed by
/// exactly the rest of the path.
pub proof fn lemma_collapse_home_prefix(p: Seq<char>, home: Seq<char>)
    requires
        home.len() > 0,
        p.len() >= home.len(),
        p.subrange(0, home.len() as int) == home,
    ensures
        collapse_home_spec(p, home).len() == p.len() - home.len() + 1,
        collapse_home_spec(p, home)[0] == '~',
        collapse_home_spec(p, home).skip(1) == p.skip(home.len() as int),
{
    assert(collapse_home_spec(p, home).skip(1) =~= p.skip(home.len() as int));
}

/// With the literal mode no replacement occurs, whether or not the
/// path carries the home prefix.
pub proof fn lemma_keep_literal(p: Seq<char>, home: Seq<char>)
    ensures
        tilde_stage(p, home, TildeMode::KeepLiteral) == p,
{
}

/// With the literal mode and no shortening, the display text is the
/// input path, byte for byte.
pub proof fn lemma_keep_literal_present(p: Seq<char>, home: Seq<char>, opts: PresentationOptions)
    requires
        opts.tilde == TildeMode::KeepLiteral,
        !opts.shorten,
    ensures
        present_spec(p, home, opts) == p,
{
}

proof fn lemma_count_concat_char(c: char, t: Seq<char>)
    ensures
        count_slashes(seq![c] + t) == (if c == '/' { 1int } else { 0int }) + count_slashes(t),
{
    assert((seq![c] + t)[0] == c);
    assert((seq![c] + t).skip(1) =~= t);
}

proof fn lemma_slashes_preserved(s: Seq<char>, armed: bool, count: int, sections: int)
    ensures
        count_slashes(shorten_from(s, armed, count, sections)) == count_slashes(s),
    decreases s.len(),
{
    if s.len() > 0 {
        let c = s[0];
        let rest = s.skip(1);
        assert(count_slashes(s) == (if c == '/' { 1int } else { 0int }) + count_slashes(rest));
        if c == '~' {
            if armed {
                lemma_slashes_preserved(rest, armed, count, sections);
            } else {
                lemma_slashes_preserved(rest, armed, count, sections);
                lemma_count_concat_char(c, shorten_from(rest, armed, count, sections));
            }
        } else if c == '.' {
            lemma_slashes_preserved(rest, false, count, sections);
            lemma_count_concat_char(c, shorten_from(rest, false, count, sections));
        } else if c == '/' {
            lemma_slashes_preserved(rest, false, count + 1, sections);
            lemma_count_concat_char(c, shorten_from(rest, false, count + 1, sections));
        } else if armed && count < sections {
            lemma_slashes_preserved(rest, armed, count, sections);
        } else {
            lemma_slashes_preserved(rest, true, count, sections);
            lemma_count_concat_char(c, shorten_from(rest, true, count, sections));
        }
    }
}

proof fn lemma_shorten_from_idem(s: Seq<char>, armed: bool, count: int, sections: int)
    ensures
        shorten_from(shorten_from(s, armed, count, sections), armed, count, sections)
            == shorten_from(s, armed, count, sections),
    decreases s.len(),
{
    if s.len() > 0 {
        let c = s[0];
        let rest = s.skip(1);
        if c == '~' {
            if armed {
                lemma_shorten_from_idem(rest, armed, count, sections);
            } else {
                let o = shorten_from(rest, armed, count, sections);
                lemma_shorten_from_idem(rest, armed, count, sections);
                assert((seq![c] + o)[0] == c);
                assert((seq![c] + o).skip(1) =~= o);
            }
        } else if c == '.' {
            let o = shorten_from(rest, false, count, sections);
            lemma_shorten_from_idem(rest, false, count, sections);
            assert((seq![c] + o)[0] == c);
            assert((seq![c] + o).skip(1) =~= o);
        } else if c == '/' {
            let o = shorten_from(rest, false, count + 1, sections);
            lemma_shorten_from_idem(rest, false, count + 1, sections);
            assert((seq![c] + o)[0] == c);
            assert((seq![c] + o).skip(1) =~= o);
        } else if armed && count < sections {
            lemma_shorten_from_idem(rest, armed, count, sections);
        } else {
            let o = shorten_from(rest, true, count, sections);
            lemma_shorten_from_idem(rest, true, count, sections);
            assert((seq![c] + o)[0] == c);
            assert((seq![c] + o).skip(1) =~= o);
        }
    }
}

/// Shortening is idempotent: a second pass leaves a shortened path as
/// it is.
pub proof fn lemma_shorten_idempotent(p: Seq<char>)
    ensures
        shorten_spec(shorten_spec(p)) == shorten_spec(p),
{
    lemma_slashes_preserved(p, false, 0, count_slashes(p));
    lemma_shorten_from_idem(p, false, 0, count_slashes(p));
}

} // verus!
