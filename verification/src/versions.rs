//! Version lists as offered to the front end, and filtering them by type
//! (`release`, `snapshot`, `old_beta`, `old_alpha`).

use vstd::prelude::*;
use crate::manifest::version_records;
use crate::models::{MinecraftVersion, VersionListResult, VersionRecord};
use crate::text::text_equal;

verus! {

/// Abstract view of a [`VersionListResult`].
#[verifier::ext_equal]
pub struct VersionListRecord {
    pub versions: Seq<VersionRecord>,
    pub error: Option<Seq<char>>,
}

impl View for VersionListResult {
    type V = VersionListRecord;

    open spec fn view(&self) -> VersionListRecord {
        VersionListRecord {
            versions: version_records(self.versions@),
            error: match self.error {
                Some(e) => Some(e@),
                None => None,
            },
        }
    }
}

/// The versions of type `ty`, in the order they were listed.
pub open spec fn of_type(vs: Seq<VersionRecord>, ty: Seq<char>) -> Seq<VersionRecord> {
    vs.filter(|v: VersionRecord| v.version_type == ty)
}

/// The list shown for a fetch outcome: the versions, or no versions and
/// the error.
pub open spec fn list_from_fetch(fetched: Result<Seq<VersionRecord>, Seq<char>>) -> VersionListRecord {
    match fetched {
        Ok(vs) => VersionListRecord { versions: vs, error: None },
        Err(e) => VersionListRecord { versions: Seq::empty(), error: Some(e) },
    }
}

/// A list narrowed to type `ty`; a list that carries an error is kept as it is.
pub open spec fn list_of_type(list: VersionListRecord, ty: Seq<char>) -> VersionListRecord {
    if list.error.is_some() {
        list
    } else {
        VersionListRecord { versions: of_type(list.versions, ty), error: None }
    }
}

/// The list for the outcome of fetching the manifest.
pub fn version_list_from_fetch(fetched: Result<Vec<MinecraftVersion>, String>) -> (r: VersionListResult)
    ensures
        r@ == list_from_fetch(
            match fetched {
                Ok(vs) => Ok(version_records(vs@)),
                Err(e) => Err(e@),
            },
        ),
{
    match fetched {
        Ok(versions) => VersionListResult { versions, error: None },
        Err(e) => {
            let r = VersionListResult { versions: Vec::new(), error: Some(e) };
            assert(r@.versions =~= Seq::<VersionRecord>::empty());
            r
        },
    }
}

/// The versions among `versions` whose type is `version_type`, in order.
pub fn filter_versions_by_type(versions: &Vec<MinecraftVersion>, version_type: &str) -> (r: Vec<MinecraftVersion>)
    ensures
        version_records(r@) == of_type(version_records(versions@), version_type@),
{
    let ghost recs = version_records(versions@);
    let ghost p = |v: VersionRecord| v.version_type == version_type@;
    let mut out: Vec<MinecraftVersion> = Vec::new();
    let mut i: usize = 0;
    while i < versions.len()
        invariant
            i <= versions.len(),
            recs == version_records(versions@),
            p == (|v: VersionRecord| v.version_type == version_type@),
            version_records(out@) == recs.take(i as int).filter(p),
        decreases versions.len() - i,
    {
        let ghost before = out@;
        proof {
            reveal_with_fuel(Seq::filter, 1);
            assert(recs.take(i + 1).drop_last() =~= recs.take(i as int));
            assert(recs.take(i + 1).last() == versions@[i as int]@);
        }
        let v = &versions[i];
        if text_equal(v.version_type.as_str(), version_type) {
            out.push(v.duplicate());
            assert(version_records(out@) =~= version_records(before).push(versions@[i as int]@));
        }
        assert(version_records(out@) =~= recs.take(i + 1).filter(p));
        i = i + 1;
    }
    assert(recs.take(versions.len() as int) =~= recs);
    out
}

/// The list narrowed to versions of type `version_type`; a list that
/// carries an error is returned unchanged.
pub fn versions_of_type(list: VersionListResult, version_type: &str) -> (r: VersionListResult)
    ensures
        r@ == list_of_type(list@, version_type@),
{
    if list.error.is_some() {
        return list;
    }
    let versions = filter_versions_by_type(&list.versions, version_type);
    VersionListResult { versions, error: None }
}

/// The list narrowed to release versions: the same as narrowing it to type
/// `release`.
pub fn release_versions(list: VersionListResult) -> (r: VersionListResult)
    ensures
        r@ == list_of_type(list@, "release"@),
{
    versions_of_type(list, "release")
}

/// Narrowing keeps exactly the versions of the requested type, in their
/// listed order: every kept version has that type, every version of that
/// type is kept, and the list does not grow.
pub proof fn law_of_type_selects(vs: Seq<VersionRecord>, ty: Seq<char>)
    ensures
        forall|i: int| 0 <= i < of_type(vs, ty).len() ==> (#[trigger] of_type(vs, ty)[i]).version_type == ty,
        forall|i: int| 0 <= i < vs.len() && vs[i].version_type == ty ==> #[trigger] of_type(vs, ty).contains(vs[i]),
        forall|v: VersionRecord| #[trigger] of_type(vs, ty).contains(v) ==> vs.contains(v),
        of_type(vs, ty).len() <= vs.len(),
{
    broadcast use vstd::seq_lib::group_filter_ensures;
    let p = |v: VersionRecord| v.version_type == ty;
    assert forall|v: VersionRecord| #[trigger] of_type(vs, ty).contains(v) implies vs.contains(v) by {
        vs.lemma_filter_contains_rev(p, v);
    }
}

/// Narrowing keeps the listed order: narrowing a list made of two parts
/// gives the narrowed first part followed by the narrowed second part.
pub proof fn law_of_type_keeps_order(vs: Seq<VersionRecord>, ws: Seq<VersionRecord>, ty: Seq<char>)
    ensures
        of_type(vs + ws, ty) == of_type(vs, ty) + of_type(ws, ty),
{
    let p = |v: VersionRecord| v.version_type == ty;
    Seq::filter_distributes_over_add(vs, ws, p);
}

/// Narrowing to a type twice is the same as narrowing once.
pub proof fn law_of_type_idempotent(vs: Seq<VersionRecord>, ty: Seq<char>)
    ensures
        of_type(of_type(vs, ty), ty) == of_type(vs, ty),
    decreases vs.len(),
{
    let p = |v: VersionRecord| v.version_type == ty;
    reveal_with_fuel(Seq::filter, 1);
    if vs.len() > 0 {
        law_of_type_idempotent(vs.drop_last(), ty);
        let f = of_type(vs.drop_last(), ty);
        if p(vs.last()) {
            assert(of_type(vs, ty) == f.push(vs.last()));
            assert(of_type(vs, ty).drop_last() =~= f);
        } else {
            assert(of_type(vs, ty) == f);
        }
    }
}

/// A list that carries an error is passed through any narrowing unchanged,
/// and a narrowed list never carries an error of its own.
pub proof fn law_error_passes_through(list: VersionListRecord, ty: Seq<char>)
    ensures
        list.error.is_some() ==> list_of_type(list, ty) == list,
        list.error.is_none() ==> list_of_type(list, ty).error.is_none(),
{
}

/// Narrowing a list that carries no error to type `ty` keeps exactly the
/// listed versions whose type is `ty`, in the order listed, and adds no
/// error: every kept version has type `ty`, every listed version of type
/// `ty` is kept, and the kept versions are the input filtered by type.
/// A list that carries an error comes back unchanged.
pub proof fn law_narrowing_selects_requested_type(list: VersionListRecord, ty: Seq<char>)
    ensures
        list.error.is_none() ==> list_of_type(list, ty).error.is_none(),
        list.error.is_none() ==> list_of_type(list, ty).versions == list.versions.filter(
            |v: VersionRecord| v.version_type == ty,
        ),
        list.error.is_none() ==> forall|i: int|
            0 <= i < list_of_type(list, ty).versions.len() ==> (#[trigger] list_of_type(list, ty).versions[i]).version_type
                == ty,
        list.error.is_none() ==> forall|i: int|
            0 <= i < list.versions.len() && list.versions[i].version_type == ty
                ==> #[trigger] list_of_type(list, ty).versions.contains(list.versions[i]),
        list.error.is_some() ==> list_of_type(list, ty) == list,
{
    if list.error.is_none() {
        let p = |v: VersionRecord| v.version_type == ty;
        assert(list_of_type(list, ty).versions == list.versions.filter(p));
        broadcast use vstd::seq_lib::group_filter_ensures;
    }
}

} // verus!
