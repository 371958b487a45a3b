use vstd::prelude::*;
use crate::text::{contains, contains_spec, same_text, starts_with, starts_with_spec};

verus! {

/// The segments of a path list separated by `:`; an empty list has one empty segment.
pub open spec fn split_spec(s: Seq<char>) -> Seq<Seq<char>>
    decreases s.len(),
{
    if s.len() == 0 {
        seq![Seq::empty()]
    } else {
        let p = split_spec(s.drop_last());
        if s.last() == ':' {
            p.push(Seq::empty())
        } else {
            p.update(p.len() - 1, p.last().push(s.last()))
        }
    }
}

/// A search-path entry worth keeping for the child: not inside the packaging
/// mount point, and belonging to the ROS integration or a system prefix.
pub open spec fn keep_segment_spec(seg: Seq<char>) -> bool {
    !contains_spec(seg, ".mount_"@) && (contains_spec(seg, "ros"@) || starts_with_spec(seg, "/opt/"@)
        || starts_with_spec(seg, "/usr/"@))
}

/// The segments that `keep_segment_spec` accepts, in their order.
pub open spec fn kept_spec(segs: Seq<Seq<char>>) -> Seq<Seq<char>>
    decreases segs.len(),
{
    if segs.len() == 0 {
        Seq::empty()
    } else {
        let p = kept_spec(segs.drop_last());
        if keep_segment_spec(segs.last()) {
            p.push(segs.last())
        } else {
            p
        }
    }
}

/// The segments joined by `:`.
pub open spec fn join_list(segs: Seq<Seq<char>>) -> Seq<char>
    decreases segs.len(),
{
    if segs.len() == 0 {
        Seq::empty()
    } else if segs.len() == 1 {
        segs[0]
    } else {
        join_list(segs.drop_last()) + seq![':'] + segs.last()
    }
}

/// The search path handed to the child: the kept segments of `v`, rejoined.
pub open spec fn filter_search_path_spec(v: Seq<char>) -> Seq<char> {
    join_list(kept_spec(split_spec(v)))
}

/// The variable that redirects the interpreter's home; never passed on.
pub open spec fn home_key() -> Seq<char> {
    "PYTHONHOME"@
}

/// The module search path variable; passed on filtered.
pub open spec fn search_path_key() -> Seq<char> {
    "PYTHONPATH"@
}

/// Name and value of an environment entry as character sequences.
pub open spec fn entry_view(e: (String, String)) -> (Seq<char>, Seq<char>) {
    (e.0@, e.1@)
}

/// The environment for the child: the home redirect dropped, the search path
/// filtered, every other entry unchanged, in the inherited order.
pub open spec fn sanitize_spec(env: Seq<(Seq<char>, Seq<char>)>) -> Seq<(Seq<char>, Seq<char>)>
    decreases env.len(),
{
    if env.len() == 0 {
        Seq::empty()
    } else {
        let p = sanitize_spec(env.drop_last());
        let e = env.last();
        if e.0 == home_key() {
            p
        } else if e.0 == search_path_key() {
            p.push((e.0, filter_search_path_spec(e.1)))
        } else {
            p.push(e)
        }
    }
}

/// Whether a search-path entry is kept for the child.
pub fn keep_segment(seg: &str) -> (r: bool)
    ensures
        r == keep_segment_spec(seg@),
{
    !contains(seg, ".mount_") && (contains(seg, "ros") || starts_with(seg, "/opt/") || starts_with(
        seg,
        "/usr/",
    ))
}

/// Adding one segment to a list adds it to the kept list exactly when it is kept,
/// and adds it to the joined text after a separator unless nothing came before.
proof fn lemma_emit(done: Seq<Seq<char>>, seg: Seq<char>)
    ensures
        kept_spec(done.push(seg)) == (if keep_segment_spec(seg) {
            kept_spec(done).push(seg)
        } else {
            kept_spec(done)
        }),
        join_list(kept_spec(done).push(seg)) == (if kept_spec(done).len() == 0 {
            seg
        } else {
            join_list(kept_spec(done)) + seq![':'] + seg
        }),
{
    assert(done.push(seg).drop_last() =~= done);
    assert(kept_spec(done).push(seg).drop_last() =~= kept_spec(done));
}

/// Appends `seg` to `out` when it is kept, with a separator when `out` already
/// holds a segment.
fn emit_segment(out: &mut String, any: &mut bool, seg: &str, Ghost(done): Ghost<Seq<Seq<char>>>)
    requires
        old(out)@ == join_list(kept_spec(done)),
        *old(any) == (kept_spec(done).len() > 0),
    ensures
        final(out)@ == join_list(kept_spec(done.push(seg@))),
        *final(any) == (kept_spec(done.push(seg@)).len() > 0),
{
    proof {
        lemma_emit(done, seg@);
        reveal_strlit(":");
    }
    if keep_segment(seg) {
        if *any {
            out.append(":");
        }
        out.append(seg);
        *any = true;
    }
}

/// The search path with only the entries that the child may see, rejoined by `:`.
pub fn filter_search_path(value: &str) -> (r: String)
    ensures
        r@ == filter_search_path_spec(value@),
{
    let n = value.unicode_len();
    let mut out = String::new();
    let mut any = false;
    let mut start: usize = 0;
    let mut i: usize = 0;
    let ghost mut done: Seq<Seq<char>> = Seq::empty();
    proof {
        assert(value@.take(0) =~= Seq::<char>::empty());
        assert(value@.subrange(0, 0) =~= Seq::<char>::empty());
    }
    while i < n
        invariant
            n == value@.len(),
            start <= i <= n,
            split_spec(value@.take(i as int)) == done.push(value@.subrange(start as int, i as int)),
            out@ == join_list(kept_spec(done)),
            any == (kept_spec(done).len() > 0),
        decreases n - i,
    {
        let c = value.get_char(i);
        proof {
            assert(value@.take(i + 1).drop_last() =~= value@.take(i as int));
            assert(value@.take(i + 1).last() == c);
        }
        if c == ':' {
            let seg = value.substring_char(start, i);
            emit_segment(&mut out, &mut any, seg, Ghost(done));
            proof {
                done = done.push(seg@);
                assert(value@.subrange(i + 1, i + 1) =~= Seq::<char>::empty());
            }
            start = i + 1;
        } else {
            proof {
                let seg = value@.subrange(start as int, i as int);
                assert(seg.push(c) =~= value@.subrange(start as int, i + 1));
                assert(done.push(seg).update(done.len() as int, seg.push(c)) =~= done.push(seg.push(c)));
            }
        }
        i = i + 1;
    }
    let seg = value.substring_char(start, n);
    emit_segment(&mut out, &mut any, seg, Ghost(done));
    proof {
        assert(value@.take(n as int) =~= value@);
    }
    out
}

/// The environment for the child process, built from the inherited one: the
/// home redirect removed, the search path filtered, all else passed through.
pub fn sanitize_environment(env: &Vec<(String, String)>) -> (r: Vec<(String, String)>)
    ensures
        r@.map_values(|e: (String, String)| entry_view(e)) == sanitize_spec(
            env@.map_values(|e: (String, String)| entry_view(e)),
        ),
{
    let mut out: Vec<(String, String)> = Vec::new();
    let mut i: usize = 0;
    proof {
        assert(env@.take(0).map_values(|e: (String, String)| entry_view(e)) =~= Seq::empty());
        assert(out@.map_values(|e: (String, String)| entry_view(e)) =~= Seq::empty());
    }
    while i < env.len()
        invariant
            i <= env@.len(),
            out@.map_values(|e: (String, String)| entry_view(e)) == sanitize_spec(
                env@.take(i as int).map_values(|e: (String, String)| entry_view(e)),
            ),
        decreases env@.len() - i,
    {
        let ghost before = out@;
        let key = env[i].0.as_str();
        let value = env[i].1.as_str();
        proof {
            let s = env@.take(i + 1).map_values(|e: (String, String)| entry_view(e));
            assert(s.drop_last() =~= env@.take(i as int).map_values(|e: (String, String)| entry_view(e)));
            assert(s.last() == entry_view(env@[i as int]));
        }
        if same_text(key, "PYTHONHOME") {
        } else if same_text(key, "PYTHONPATH") {
            out.push((String::from_str(key), filter_search_path(value)));
        } else {
            out.push((String::from_str(key), String::from_str(value)));
        }
        proof {
            assert(out@.map_values(|e: (String, String)| entry_view(e)) =~= sanitize_spec(
                env@.take(i + 1).map_values(|e: (String, String)| entry_view(e)),
            ));
        }
        i = i + 1;
    }
    proof {
        assert(env@.take(env@.len() as int) =~= env@);
    }
    out
}

} // verus!
