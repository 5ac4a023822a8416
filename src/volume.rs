//! Where the probe's bootloader volume may be mounted: the mount points to
//! probe first, and the reading of a block-device listing with one
//! `LABEL MOUNTPOINT` row per line.
use vstd::prelude::*;

verus! {

/// The volume label of the bootloader volume, `CHERRYUF2`, as bytes.
pub open spec fn bootloader_label() -> Seq<u8> {
    seq![0x43u8, 0x48u8, 0x45u8, 0x52u8, 0x52u8, 0x59u8, 0x55u8, 0x46u8, 0x32u8]
}

/// The mount points to probe for the bootloader volume, in order, for the
/// user named `user`.
pub open spec fn candidate_paths_of(user: Seq<char>) -> Seq<Seq<char>> {
    seq![
        "/media/"@ + user + "/CHERRYUF2"@,
        "/run/media/"@ + user + "/CHERRYUF2"@,
        "/mnt/CHERRYUF2"@,
        "/media/CHERRYUF2"@,
    ]
}

/// Whether `b` separates the fields of a row.
pub open spec fn is_blank(b: u8) -> bool {
    b == 0x20 || b == 0x09 || b == 0x0b || b == 0x0c || b == 0x0d
}

/// The views of a vector of byte vectors.
pub open spec fn views(v: Seq<Vec<u8>>) -> Seq<Seq<u8>> {
    v.map_values(|x: Vec<u8>| x@)
}

/// The fields finished within the first `i` bytes of `line`, and the field
/// still open after them.
pub open spec fn fields_upto(line: Seq<u8>, i: int) -> (Seq<Seq<u8>>, Seq<u8>)
    decreases i,
{
    if i <= 0 || i > line.len() {
        (Seq::empty(), Seq::empty())
    } else {
        let (done, cur) = fields_upto(line, i - 1);
        if is_blank(line[i - 1]) {
            if cur.len() > 0 {
                (done.push(cur), Seq::empty())
            } else {
                (done, cur)
            }
        } else {
            (done, cur.push(line[i - 1]))
        }
    }
}

/// The fields of `line`: its maximal runs of non-blank bytes.
pub open spec fn fields_of(line: Seq<u8>) -> Seq<Seq<u8>> {
    let (done, cur) = fields_upto(line, line.len() as int);
    if cur.len() > 0 {
        done.push(cur)
    } else {
        done
    }
}

/// The lines finished within the first `i` bytes of `out`, and the line
/// still open after them.
pub open spec fn lines_upto(out: Seq<u8>, i: int) -> (Seq<Seq<u8>>, Seq<u8>)
    decreases i,
{
    if i <= 0 || i > out.len() {
        (Seq::empty(), Seq::empty())
    } else {
        let (done, cur) = lines_upto(out, i - 1);
        if out[i - 1] == 0x0a {
            (done.push(cur), Seq::empty())
        } else {
            (done, cur.push(out[i - 1]))
        }
    }
}

/// The lines of `out`, split at each newline; a last line without a
/// newline counts where it is not empty.
pub open spec fn lines_of(out: Seq<u8>) -> Seq<Seq<u8>> {
    let (done, cur) = lines_upto(out, out.len() as int);
    if cur.len() > 0 {
        done.push(cur)
    } else {
        done
    }
}

/// The second field of the first row among `lines` that has at least two
/// fields and whose first field is the bootloader label.
pub open spec fn mount_in(lines: Seq<Seq<u8>>) -> Option<Seq<u8>>
    decreases lines.len(),
{
    if lines.len() == 0 {
        None
    } else {
        let f = fields_of(lines[0]);
        if f.len() >= 2 && f[0] == bootloader_label() {
            Some(f[1])
        } else {
            mount_in(lines.drop_first())
        }
    }
}

/// The mount points to probe for the bootloader volume of user `user`.
pub fn candidate_paths(user: &str) -> (r: Vec<String>)
    ensures
        r@.map_values(|s: String| s@) == candidate_paths_of(user@),
{
    let mut r: Vec<String> = Vec::new();
    r.push(String::from_str("/media/").concat(user).concat("/CHERRYUF2"));
    r.push(String::from_str("/run/media/").concat(user).concat("/CHERRYUF2"));
    r.push(String::from_str("/mnt/CHERRYUF2"));
    r.push(String::from_str("/media/CHERRYUF2"));
    assert(r@.map_values(|s: String| s@) =~= candidate_paths_of(user@));
    r
}

/// Whether `f` is the bootloader label.
fn is_bootloader_label(f: &Vec<u8>) -> (r: bool)
    ensures
        r == (f@ == bootloader_label()),
{
    if f.len() != 9 {
        return false;
    }
    let r = f[0] == 0x43 && f[1] == 0x48 && f[2] == 0x45 && f[3] == 0x52 && f[4] == 0x52 && f[5]
        == 0x59 && f[6] == 0x55 && f[7] == 0x46 && f[8] == 0x32;
    proof {
        if r {
            assert(f@ =~= bootloader_label());
        }
    }
    r
}

/// Splits `line` into its fields.
pub fn split_fields(line: &Vec<u8>) -> (r: Vec<Vec<u8>>)
    ensures
        views(r@) == fields_of(line@),
{
    let mut done: Vec<Vec<u8>> = Vec::new();
    let mut cur: Vec<u8> = Vec::new();
    let mut i: usize = 0;
    while i < line.len()
        invariant
            i <= line.len(),
            (views(done@), cur@) == fields_upto(line@, i as int),
        decreases line.len() - i,
    {
        let b = line[i];
        if b == 0x20 || b == 0x09 || b == 0x0b || b == 0x0c || b == 0x0d {
            if cur.len() > 0 {
                let ghost old_done = views(done@);
                let field = cur;
                cur = Vec::new();
                done.push(field);
                assert(views(done@) =~= old_done.push(field@));
            }
        } else {
            cur.push(b);
        }
        i = i + 1;
    }
    if cur.len() > 0 {
        let ghost old_done = views(done@);
        let ghost last = cur@;
        done.push(cur);
        assert(views(done@) =~= old_done.push(last));
    }
    done
}

/// Splits `out` into its lines.
pub fn split_lines(out: &[u8]) -> (r: Vec<Vec<u8>>)
    ensures
        views(r@) == lines_of(out@),
{
    let mut done: Vec<Vec<u8>> = Vec::new();
    let mut cur: Vec<u8> = Vec::new();
    let mut i: usize = 0;
    while i < out.len()
        invariant
            i <= out.len(),
            (views(done@), cur@) == lines_upto(out@, i as int),
        decreases out.len() - i,
    {
        let b = out[i];
        if b == 0x0a {
            let ghost old_done = views(done@);
            let line = cur;
            cur = Vec::new();
            done.push(line);
            assert(views(done@) =~= old_done.push(line@));
        } else {
            cur.push(b);
        }
        i = i + 1;
    }
    if cur.len() > 0 {
        let ghost old_done = views(done@);
        let ghost last = cur@;
        done.push(cur);
        assert(views(done@) =~= old_done.push(last));
    }
    done
}

/// The mount point of the bootloader volume in a listing `out` whose rows
/// are `LABEL MOUNTPOINT`, if a row names it.
pub fn find_mount_point(out: &[u8]) -> (r: Option<Vec<u8>>)
    ensures
        r is Some <==> mount_in(lines_of(out@)) is Some,
        r is Some ==> mount_in(lines_of(out@)) == Some(r->Some_0@),
{
    let lines = split_lines(out);
    let ghost ls = views(lines@);
    let mut i: usize = 0;
    assert(ls.subrange(0, ls.len() as int) == ls);
    while i < lines.len()
        invariant
            i <= lines.len(),
            ls == views(lines@),
            ls == lines_of(out@),
            ls.len() == lines@.len(),
            mount_in(ls) == mount_in(ls.subrange(i as int, ls.len() as int)),
        decreases lines.len() - i,
    {
        let fields = split_fields(&lines[i]);
        proof {
            let rest = ls.subrange(i as int, ls.len() as int);
            assert(rest[0] == lines@[i as int]@);
            assert(rest.drop_first() =~= ls.subrange(i + 1, ls.len() as int));
        }
        if fields.len() >= 2 && is_bootloader_label(&fields[0]) {
            let m = fields[1].clone();
            assert(m@ =~= fields@[1]@);
            proof {
                let rest = ls.subrange(i as int, ls.len() as int);
                let f = fields_of(rest[0]);
                assert(f == views(fields@));
                assert(f[0] == fields@[0]@);
                assert(f[1] == fields@[1]@);
                assert(mount_in(rest) == Some(f[1]));
            }
            return Some(m);
        }
        proof {
            let rest = ls.subrange(i as int, ls.len() as int);
            assert(fields_of(rest[0]) == views(fields@));
            if fields@.len() >= 2 {
                assert(views(fields@)[0] == fields@[0]@);
            }
            assert(mount_in(rest) == mount_in(rest.drop_first()));
        }
        i = i + 1;
    }
    proof {
        assert(ls.subrange(ls.len() as int, ls.len() as int).len() == 0);
    }
    None
}

} // verus!
