//! Host paths, kept as text.

use vstd::prelude::*;

verus! {

/// `base` extended by `part`, as on a Unix host: an absolute `part` stands
/// alone; otherwise the two are joined, with a `/` between them unless `base`
/// is empty or ends in one already.
pub open spec fn joined(base: Seq<char>, part: Seq<char>) -> Seq<char> {
    if part.len() > 0 && part[0] == '/' {
        part
    } else if base.len() > 0 && base.last() != '/' {
        base + seq!['/'] + part
    } else {
        base + part
    }
}

/// `Path::join`, on paths given and returned as text.
#[verifier::external_body]
pub(crate) fn join(base: &str, part: &str) -> (r: String)
    ensures
        r@ == joined(base@, part@),
{
    std::path::Path::new(base).join(part).to_string_lossy().into_owned()
}

/// Two parts that hold no `/` and differ lead to different paths under the
/// same base, and stay apart when the same name is appended to each.
pub proof fn lemma_joined_apart(base: Seq<char>, a: Seq<char>, b: Seq<char>, name: Seq<char>)
    requires
        a != b,
        !a.contains('/'),
        !b.contains('/'),
        name.len() > 0,
        name[0] != '/',
    ensures
        joined(base, a) != joined(base, b),
        joined(joined(base, a), name) != joined(joined(base, b), name),
{
    assert(a.len() > 0 ==> a[0] != '/') by {
        if a.len() > 0 {
            assert(a.contains(a[0]));
        }
    }
    assert(b.len() > 0 ==> b[0] != '/') by {
        if b.len() > 0 {
            assert(b.contains(b[0]));
        }
    }
    let prefix = if base.len() > 0 && base.last() != '/' {
        base + seq!['/']
    } else {
        base
    };
    let pa = joined(base, a);
    let pb = joined(base, b);
    assert(pa =~= prefix + a);
    assert(pb =~= prefix + b);
    lemma_same_prefix(prefix, a, b);
    // The last character of a joined path is the last of the part, or that of
    // the prefix where the part is empty.
    let ja = joined(pa, name);
    let jb = joined(pb, name);
    if ja == jb {
        let sa = if pa.len() > 0 && pa.last() != '/' {
            seq!['/'] + name
        } else {
            name
        };
        let sb = if pb.len() > 0 && pb.last() != '/' {
            seq!['/'] + name
        } else {
            name
        };
        assert(ja =~= pa + sa);
        assert(jb =~= pb + sb);
        if sa.len() == sb.len() {
            assert(pa.len() == pb.len());
            assert(pa =~= ja.subrange(0, pa.len() as int));
            assert(pb =~= jb.subrange(0, pb.len() as int));
            assert(false);
        } else if sa.len() > sb.len() {
            // pa is followed by a separator, pb is not: pb is pa and a `/`.
            assert(pb.len() == pa.len() + 1);
            assert(pb.last() == jb[pa.len() as int]);
            assert(ja[pa.len() as int] == '/');
            assert(pb.len() > 0 && pb.last() == '/');
            assert(pb =~= jb.subrange(0, pb.len() as int));
            assert(pa =~= ja.subrange(0, pa.len() as int));
            assert(pa =~= pb.subrange(0, pa.len() as int));
            assert(b.len() == a.len() + 1);
            assert(b.last() == pb.last());
            assert(b.contains(b.last()));
            assert(false);
        } else {
            assert(pa.len() == pb.len() + 1);
            assert(pa.last() == ja[pb.len() as int]);
            assert(jb[pb.len() as int] == '/');
            assert(pa.len() > 0 && pa.last() == '/');
            assert(pa =~= ja.subrange(0, pa.len() as int));
            assert(pb =~= jb.subrange(0, pb.len() as int));
            assert(pb =~= pa.subrange(0, pb.len() as int));
            assert(a.len() == b.len() + 1);
            assert(a.last() == pa.last());
            assert(a.contains(a.last()));
            assert(false);
        }
    }
}

proof fn lemma_same_prefix(prefix: Seq<char>, a: Seq<char>, b: Seq<char>)
    requires
        a != b,
    ensures
        prefix + a != prefix + b,
{
    if prefix + a == prefix + b {
        assert(a =~= (prefix + a).skip(prefix.len() as int));
        assert(b =~= (prefix + b).skip(prefix.len() as int));
    }
}

} // verus!
