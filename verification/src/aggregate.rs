//! Shared accumulation of cross-package results: the global feature list,
//! the global module list, and the per-package-type icon-metadata table,
//! pre-seeded with every known package type.
use vstd::prelude::*;

use crate::model::{Feature, IconMeta};
use crate::package::PackageType;

verus! {

/// The package types of the metadata table's entries, in table order.
pub open spec fn table_types(s: Seq<(PackageType, Vec<IconMeta>)>) -> Seq<PackageType> {
    s.map_values(|e: (PackageType, Vec<IconMeta>)| e.0)
}

/// All aggregate state of one pipeline run. Created empty before fan-out,
/// written once per package during fan-out, and consumed by the driver
/// after all packages finish.
#[derive(Debug)]
pub struct Aggregator {
    pub features: Vec<Feature>,
    pub modules: Vec<String>,
    pub package_icon_metadata: Vec<(PackageType, Vec<IconMeta>)>,
}

impl Aggregator {
    /// The table invariant: its keys are exactly the known package types,
    /// in enumeration order — one entry per type, never more, never fewer.
    pub open spec fn wf(self) -> bool {
        table_types(self.package_icon_metadata@) == PackageType::order()
    }

    /// Every known package type has exactly one entry in the metadata
    /// table of a well-formed aggregator.
    pub proof fn lemma_type_completeness(self, ty: PackageType)
        requires
            self.wf(),
        ensures
            exists|i: int|
                0 <= i < self.package_icon_metadata@.len()
                    && #[trigger] self.package_icon_metadata@[i].0 == ty,
            forall|i: int, j: int|
                0 <= i < j < self.package_icon_metadata@.len()
                    ==> #[trigger] self.package_icon_metadata@[i].0
                    != #[trigger] self.package_icon_metadata@[j].0,
    {
        let table = self.package_icon_metadata@;
        ty.lemma_order_index();
        assert(table_types(table)[ty.index()] == ty);
        assert(table[ty.index()].0 == ty);
        assert forall|i: int, j: int| 0 <= i < j < table.len() implies #[trigger] table[i].0
            != #[trigger] table[j].0 by {
            assert(table[i].0 == PackageType::order()[i]);
            assert(table[j].0 == PackageType::order()[j]);
            assert(PackageType::order()[i].index() == i);
            assert(PackageType::order()[j].index() == j);
        }
    }

    /// A fresh aggregator: no features, no modules, and the metadata
    /// table pre-seeded with every known package type mapped to an empty
    /// list.
    pub fn new() -> (r: Aggregator)
        ensures
            r.wf(),
            r.features@.len() == 0,
            r.modules@.len() == 0,
            r.package_icon_metadata@.len() == PackageType::order().len(),
            forall|i: int|
                0 <= i < r.package_icon_metadata@.len()
                    ==> (#[trigger] r.package_icon_metadata@[i]).1@.len() == 0,
    {
        let tys = PackageType::all();
        let mut table: Vec<(PackageType, Vec<IconMeta>)> = Vec::new();
        let mut i: usize = 0;
        while i < tys.len()
            invariant
                i <= tys.len(),
                tys@ == PackageType::order(),
                table@.len() == i,
                forall|k: int|
                    0 <= k < i ==> (#[trigger] table@[k]).0 == PackageType::order()[k]
                        && table@[k].1@.len() == 0,
            decreases tys.len() - i,
        {
            let metas: Vec<IconMeta> = Vec::new();
            table.push((tys[i], metas));
            i = i + 1;
        }
        proof {
            assert(table_types(table@) =~= PackageType::order());
        }
        Aggregator { features: Vec::new(), modules: Vec::new(), package_icon_metadata: table }
    }

    /// Appends a package's features to the global feature list.
    pub fn append_features(&mut self, fs: Vec<Feature>)
        ensures
            final(self).features@ == old(self).features@ + fs@,
            final(self).modules == old(self).modules,
            final(self).package_icon_metadata == old(self).package_icon_metadata,
    {
        let mut fs = fs;
        self.features.append(&mut fs);
    }

    /// Appends a successfully processed package's short name to the
    /// global module list.
    pub fn append_module(&mut self, module_name: String)
        ensures
            final(self).modules@ == old(self).modules@.push(module_name),
            final(self).features == old(self).features,
            final(self).package_icon_metadata == old(self).package_icon_metadata,
    {
        self.modules.push(module_name);
    }

    /// Replaces the metadata entry of the given package type. The entry
    /// exists by the table invariant; no entry is ever inserted here.
    pub fn set_package_icon_meta(&mut self, ty: PackageType, metas: Vec<IconMeta>)
        requires
            old(self).wf(),
        ensures
            final(self).wf(),
            final(self).features == old(self).features,
            final(self).modules == old(self).modules,
            final(self).package_icon_metadata@.len() == old(self).package_icon_metadata@.len(),
            forall|i: int|
                0 <= i < old(self).package_icon_metadata@.len()
                    && (#[trigger] old(self).package_icon_metadata@[i]).0 != ty
                    ==> final(self).package_icon_metadata@[i] == old(
                    self,
                ).package_icon_metadata@[i],
            forall|i: int|
                0 <= i < old(self).package_icon_metadata@.len()
                    && (#[trigger] old(self).package_icon_metadata@[i]).0 == ty
                    ==> final(self).package_icon_metadata@[i] == (ty, metas),
    {
        proof {
            old(self).lemma_type_completeness(ty);
        }
        let n = self.package_icon_metadata.len();
        let mut i: usize = 0;
        while i < n
            invariant
                i <= n,
                n == self.package_icon_metadata@.len(),
                *self == *old(self),
                old(self).wf(),
                forall|k: int|
                    0 <= k < i ==> (#[trigger] self.package_icon_metadata@[k]).0 != ty,
                exists|k: int|
                    0 <= k < self.package_icon_metadata@.len()
                        && #[trigger] self.package_icon_metadata@[k].0 == ty,
            decreases n - i,
        {
            if self.package_icon_metadata[i].0 == ty {
                proof {
                    old(self).lemma_type_completeness(ty);
                }
                let ghost pre = self.package_icon_metadata@;
                let _ = self.package_icon_metadata.remove(i);
                self.package_icon_metadata.insert(i, (ty, metas));
                proof {
                    assert(self.package_icon_metadata@ =~= pre.update(i as int, (ty, metas)));
                    assert(table_types(self.package_icon_metadata@) =~= table_types(pre));
                }
                return ;
            }
            i = i + 1;
        }
        proof {
            assert(false);
        }
    }
}

} // verus!
