//! Small text utilities: building paths, splitting a record into fields, and
//! taking the final segment of a symlink target.

use vstd::prelude::*;

verus! {

/// Builds `prefix` followed by `name` as one string.
pub fn prefixed(prefix: &str, name: &str) -> (r: String)
    ensures
        r@ == prefix@ + name@,
{
    String::from_str(prefix).concat(name)
}

/// The path of a node called `name` under the device directory.
pub open spec fn dev_path_of(name: Seq<char>) -> Seq<char> {
    "/dev/"@ + name
}

/// The registry entry path for a device pair: `/sys/dev/block/{major}:{minor}`.
pub open spec fn registry_path_of(ma: u32, mi: u32) -> Seq<char> {
    "/sys/dev/block/"@ + crate::digits::dec_digits(ma as nat) + ":"@ + crate::digits::dec_digits(
        mi as nat,
    )
}

/// Builds the registry entry path for a device pair.
pub fn registry_path(ma: u32, mi: u32) -> (r: String)
    ensures
        r@ == registry_path_of(ma, mi),
{
    let s = String::from_str("/sys/dev/block/").concat(
        crate::digits::u32_to_dec(ma).as_str(),
    ).concat(":").concat(crate::digits::u32_to_dec(mi).as_str());
    s
}

/// Whether a character separates fields of a mount-table record.
pub open spec fn is_sep(c: char) -> bool {
    c == ' ' || c == '\t'
}

/// The fields of a record: the maximal runs of non-separator characters, in
/// order.  Runs of separators between, before or after fields yield nothing.
pub open spec fn fields_of(s: Seq<char>) -> Seq<Seq<char>>
    decreases s.len(),
{
    if s.len() == 0 {
        Seq::empty()
    } else {
        let t = fields_of(s.drop_last());
        let c = s.last();
        if is_sep(c) {
            t
        } else if s.len() >= 2 && !is_sep(s[s.len() - 2]) {
            t.update(t.len() - 1, t.last().push(c))
        } else {
            t.push(seq![c])
        }
    }
}

/// Splits a record into its fields, as `fields_of` describes.
pub fn split_fields(line: &str) -> (r: Vec<String>)
    ensures
        r.deep_view() == fields_of(line@),
{
    let n = line.unicode_len();
    let mut r: Vec<String> = Vec::new();
    let mut run_start: usize = 0;
    let mut in_run = false;
    let mut i: usize = 0;
    while i < n
        invariant
            i <= n,
            n == line@.len(),
            !in_run ==> r.deep_view() =~= fields_of(line@.take(i as int)) && (i == 0 || is_sep(
                line@[i - 1],
            )),
            in_run ==> run_start < i && !is_sep(line@[i - 1]) && r.deep_view().push(
                line@.subrange(run_start as int, i as int),
            ) =~= fields_of(line@.take(i as int)),
        decreases n - i,
    {
        let c = line.get_char(i);
        proof {
            assert(line@.take(i + 1).drop_last() =~= line@.take(i as int));
            assert(line@.take(i + 1).last() == c);
        }
        if c == ' ' || c == '\t' {
            if in_run {
                let ghost old_r = r.deep_view();
                let ghost field = line@.subrange(run_start as int, i as int);
                r.push(line.substring_char(run_start, i).to_owned());
                in_run = false;
                proof {
                    assert(r.deep_view() =~= old_r.push(field));
                }
            }
        } else {
            let ghost old_fields = fields_of(line@.take(i as int));
            if in_run {
                proof {
                    let t = old_fields;
                    let field = line@.subrange(run_start as int, i as int);
                    assert(r.deep_view().push(field) =~= t);
                    assert(t.len() > 0 && t.last() == field);
                    assert(line@.subrange(run_start as int, i + 1) =~= field.push(c));
                    assert(fields_of(line@.take(i + 1)) =~= t.update(t.len() - 1, field.push(c)));
                    assert(r.deep_view().push(line@.subrange(run_start as int, i + 1)) =~= t.update(
                        t.len() - 1,
                        field.push(c),
                    ));
                }
            } else {
                run_start = i;
                in_run = true;
                proof {
                    assert(line@.subrange(i as int, i + 1) =~= seq![c]);
                    assert(r.deep_view().push(seq![c]) =~= old_fields.push(seq![c]));
                }
            }
        }
        i += 1;
    }
    proof {
        assert(line@.take(n as int) =~= line@);
    }
    if in_run {
        let ghost old_r = r.deep_view();
        let ghost field = line@.subrange(run_start as int, n as int);
        r.push(line.substring_char(run_start, n).to_owned());
        proof {
            assert(r.deep_view() =~= old_r.push(field));
        }
    }
    r
}

/// The index of the last slash of a path, if it has one.
pub open spec fn last_slash(p: Seq<char>) -> Option<int>
    decreases p.len(),
{
    if p.len() == 0 {
        None
    } else if p.last() == '/' {
        Some(p.len() - 1)
    } else {
        last_slash(p.drop_last())
    }
}

/// The final segment of a symlink target: the part after the last slash (the
/// whole target when it has none), absent when that part is empty, `.` or
/// `..`.
pub open spec fn last_segment_spec(p: Seq<char>) -> Option<Seq<char>> {
    let seg = match last_slash(p) {
        Some(i) => p.subrange(i + 1, p.len() as int),
        None => p,
    };
    if seg.len() == 0 || seg == seq!['.'] || seg == seq!['.', '.'] {
        None
    } else {
        Some(seg)
    }
}

/// Takes the final segment of a symlink target, as `last_segment_spec`
/// describes.
pub fn last_segment(path: &str) -> (r: Option<String>)
    ensures
        match r {
            Some(s) => last_segment_spec(path@) == Some(s@),
            None => last_segment_spec(path@) is None,
        },
{
    let n = path.unicode_len();
    let mut k: usize = 0;
    let mut j: usize = 0;
    while j < n
        invariant
            j <= n,
            k <= j,
            n == path@.len(),
            k as int == match last_slash(path@.take(j as int)) {
                Some(i) => i + 1,
                None => 0,
            },
        decreases n - j,
    {
        proof {
            assert(path@.take(j + 1).drop_last() =~= path@.take(j as int));
            assert(path@.take(j + 1).last() == path@[j as int]);
        }
        if path.get_char(j) == '/' {
            k = j + 1;
        }
        j += 1;
    }
    proof {
        assert(path@.take(n as int) =~= path@);
    }
    let ghost seg = match last_slash(path@) {
        Some(i) => path@.subrange(i + 1, n as int),
        None => path@,
    };
    proof {
        if last_slash(path@) is Some {
        } else {
            assert(path@.subrange(k as int, n as int) =~= path@);
        }
        assert(seg =~= path@.subrange(k as int, n as int));
    }
    let m = n - k;
    if m == 0 {
        return None;
    }
    if m == 1 && path.get_char(k) == '.' {
        proof {
            assert(seg =~= seq!['.']);
        }
        return None;
    }
    if m == 2 && path.get_char(k) == '.' && path.get_char(k + 1) == '.' {
        proof {
            assert(seg =~= seq!['.', '.']);
        }
        return None;
    }
    let s = path.substring_char(k, n).to_owned();
    proof {
        assert(seg.len() > 0);
        if seg == seq!['.'] {
            assert(seg.len() == 1 && seg[0] == '.');
            assert(false);
        }
        if seg == seq!['.', '.'] {
            assert(seg.len() == 2 && seg[0] == '.' && seg[1] == '.');
            assert(false);
        }
    }
    Some(s)
}

} // verus!
