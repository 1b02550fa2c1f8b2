//! The fixed set of known icon packages and their naming.
use vstd::prelude::*;

verus! {

/// The type tag of one external icon source; the set is fixed at build time.
#[derive(Clone, Copy, Debug, PartialEq, Eq, Structural)]
pub enum PackageType {
    Ai,
    Bi,
    Bs,
    Cg,
    Fa,
    Hi,
    Io,
    Si,
}

impl PackageType {
    /// The canonical enumeration order of the known package types.
    pub open spec fn order() -> Seq<PackageType> {
        seq![
            PackageType::Ai,
            PackageType::Bi,
            PackageType::Bs,
            PackageType::Cg,
            PackageType::Fa,
            PackageType::Hi,
            PackageType::Io,
            PackageType::Si,
        ]
    }

    /// The position of this type in the canonical enumeration.
    pub open spec fn index(self) -> int {
        match self {
            PackageType::Ai => 0,
            PackageType::Bi => 1,
            PackageType::Bs => 2,
            PackageType::Cg => 3,
            PackageType::Fa => 4,
            PackageType::Hi => 5,
            PackageType::Io => 6,
            PackageType::Si => 7,
        }
    }

    pub proof fn lemma_order_index(self)
        ensures
            0 <= self.index() < Self::order().len(),
            Self::order()[self.index()] == self,
    {
    }

    /// One instance of every known package type, in enumeration order.
    pub fn all() -> (v: Vec<PackageType>)
        ensures
            v@ == Self::order(),
    {
        let mut v: Vec<PackageType> = Vec::new();
        v.push(PackageType::Ai);
        v.push(PackageType::Bi);
        v.push(PackageType::Bs);
        v.push(PackageType::Cg);
        v.push(PackageType::Fa);
        v.push(PackageType::Hi);
        v.push(PackageType::Io);
        v.push(PackageType::Si);
        proof {
            assert(v@ =~= Self::order());
        }
        v
    }

    /// The short name of the package, used for module and feature
    /// namespacing.
    pub open spec fn short_name_spec(self) -> Seq<char> {
        match self {
            PackageType::Ai => "ai"@,
            PackageType::Bi => "bi"@,
            PackageType::Bs => "bs"@,
            PackageType::Cg => "cg"@,
            PackageType::Fa => "fa"@,
            PackageType::Hi => "hi"@,
            PackageType::Io => "io"@,
            PackageType::Si => "si"@,
        }
    }

    pub fn short_name(self) -> (r: &'static str)
        ensures
            r@ == self.short_name_spec(),
    {
        match self {
            PackageType::Ai => "ai",
            PackageType::Bi => "bi",
            PackageType::Bs => "bs",
            PackageType::Cg => "cg",
            PackageType::Fa => "fa",
            PackageType::Hi => "hi",
            PackageType::Io => "io",
            PackageType::Si => "si",
        }
    }
}

/// One external icon source. The source location and download mechanism
/// belong to an outside collaborator; the pipeline only consumes the type
/// tag and the names derived from it.
#[derive(Clone, Copy, Debug, PartialEq, Eq, Structural)]
pub struct Package {
    pub ty: PackageType,
}

/// The name of the generated per-package library crate for a short name,
/// such as `leptos-icons-ai` for `ai`.
pub open spec fn lib_name_spec(short: Seq<char>) -> Seq<char> {
    "leptos-icons-"@ + short
}

impl Package {
    pub fn new(ty: PackageType) -> (p: Package)
        ensures
            p.ty == ty,
    {
        Package { ty }
    }

    pub fn short_name(&self) -> (r: &'static str)
        ensures
            r@ == self.ty.short_name_spec(),
    {
        self.ty.short_name()
    }

    pub fn lib_name(&self) -> (r: String)
        ensures
            r@ == lib_name_spec(self.ty.short_name_spec()),
    {
        lib_name(self.short_name())
    }

    /// One `Package` per known `PackageType`, in enumeration order.
    pub fn all() -> (v: Vec<Package>)
        ensures
            v@.len() == PackageType::order().len(),
            forall|i: int| 0 <= i < v@.len() ==> v@[i].ty == PackageType::order()[i],
    {
        let tys = PackageType::all();
        let mut v: Vec<Package> = Vec::new();
        let mut i: usize = 0;
        while i < tys.len()
            invariant
                i <= tys.len(),
                tys@ == PackageType::order(),
                v@.len() == i,
                forall|k: int| 0 <= k < i ==> v@[k].ty == PackageType::order()[k],
            decreases tys.len() - i,
        {
            v.push(Package { ty: tys[i] });
            i = i + 1;
        }
        v
    }
}

/// Builds the generated library crate name for a package short name.
pub fn lib_name(short: &str) -> (r: String)
    ensures
        r@ == lib_name_spec(short@),
{
    let mut s = String::new();
    s.append("leptos-icons-");
    s.append(short);
    s
}

} // verus!
