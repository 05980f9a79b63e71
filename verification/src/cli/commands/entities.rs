//! The kinds of resource that the control-plane API exposes, and where each
//! resource is found.

use vstd::prelude::*;
use crate::utils::search::{first_index, lemma_first_index_is, lemma_first_index_none};
use crate::utils::text::str_eq;

verus! {

/// Path under which the control-plane API lists the kinds of resource it
/// exposes.
pub const ENTITIES_PATH: &'static str = "/apis/entities";

/// One version of a kind of resource.
#[derive(Debug)]
pub struct OtoroshExposedResourceVersion {
    pub name: String,
    pub served: bool,
    pub deprecated: bool,
    pub storage: bool,
}

/// The plain value of a [`OtoroshExposedResourceVersion`].
pub struct OtoroshExposedResourceVersionModel {
    pub name: Seq<char>,
    pub served: bool,
    pub deprecated: bool,
    pub storage: bool,
}

impl DeepView for OtoroshExposedResourceVersion {
    type V = OtoroshExposedResourceVersionModel;

    open spec fn deep_view(&self) -> OtoroshExposedResourceVersionModel {
        OtoroshExposedResourceVersionModel {
            name: self.name.deep_view(),
            served: self.served.deep_view(),
            deprecated: self.deprecated.deep_view(),
            storage: self.storage.deep_view(),
        }
    }
}

impl Clone for OtoroshExposedResourceVersion {
    fn clone(&self) -> (res: Self)
        ensures
            res.deep_view() == self.deep_view(),
    {
        OtoroshExposedResourceVersion {
            name: self.name.clone(),
            served: self.served,
            deprecated: self.deprecated,
            storage: self.storage,
        }
    }
}

/// A kind of resource that the control-plane API exposes.
#[derive(Debug)]
pub struct OtoroshExposedResource {
    pub kind: String,
    pub plural_name: String,
    pub singular_name: String,
    pub group: String,
    pub version: OtoroshExposedResourceVersion,
}

/// The plain value of a [`OtoroshExposedResource`].
pub struct OtoroshExposedResourceModel {
    pub kind: Seq<char>,
    pub plural_name: Seq<char>,
    pub singular_name: Seq<char>,
    pub group: Seq<char>,
    pub version: OtoroshExposedResourceVersionModel,
}

impl DeepView for OtoroshExposedResource {
    type V = OtoroshExposedResourceModel;

    open spec fn deep_view(&self) -> OtoroshExposedResourceModel {
        OtoroshExposedResourceModel {
            kind: self.kind.deep_view(),
            plural_name: self.plural_name.deep_view(),
            singular_name: self.singular_name.deep_view(),
            group: self.group.deep_view(),
            version: self.version.deep_view(),
        }
    }
}

impl Clone for OtoroshExposedResource {
    fn clone(&self) -> (res: Self)
        ensures
            res.deep_view() == self.deep_view(),
    {
        OtoroshExposedResource {
            kind: self.kind.clone(),
            plural_name: self.plural_name.clone(),
            singular_name: self.singular_name.clone(),
            group: self.group.clone(),
            version: self.version.clone(),
        }
    }
}

/// The kinds of resource that the control-plane API exposes.
#[derive(Debug, Clone)]
pub struct OtoroshExposedResources {
    pub version: String,
    pub resources: Vec<OtoroshExposedResource>,
}

/// The plain value of a [`OtoroshExposedResources`].
pub struct OtoroshExposedResourcesModel {
    pub version: Seq<char>,
    pub resources: Seq<OtoroshExposedResourceModel>,
}

impl DeepView for OtoroshExposedResources {
    type V = OtoroshExposedResourcesModel;

    open spec fn deep_view(&self) -> OtoroshExposedResourcesModel {
        OtoroshExposedResourcesModel {
            version: self.version.deep_view(),
            resources: self.resources.deep_view(),
        }
    }
}
/// The condition that a kind of resource goes by `name`: as its kind, its
/// singular name or its plural name.
pub open spec fn goes_by(name: Seq<char>) -> spec_fn(OtoroshExposedResourceModel) -> bool {
    |r: OtoroshExposedResourceModel| r.plural_name == name || r.singular_name == name || r.kind == name
}

/// The path of the resource `id` of a kind:
/// `/apis/{group}/{version}/{plural name}/{id}`.
pub open spec fn resource_path_of(r: OtoroshExposedResourceModel, id: Seq<char>) -> Seq<char> {
    "/apis/"@ + r.group + seq!['/'] + r.version.name + seq!['/'] + r.plural_name + seq!['/'] + id
}

impl OtoroshExposedResource {
    /// The path of the resource `id` of this kind.
    pub fn resource_path(&self, id: &str) -> (res: String)
        ensures
            res@ == resource_path_of(self.deep_view(), id@),
    {
        let mut out = "/apis/".to_string();
        out.append(self.group.as_str());
        out.push('/');
        out.append(self.version.name.as_str());
        out.push('/');
        out.append(self.plural_name.as_str());
        out.push('/');
        out.append(id);
        proof {
            assert(out@ =~= resource_path_of(self.deep_view(), id@));
        }
        out
    }
}

impl OtoroshExposedResources {
    /// The first kind of resource that goes by `name`.
    pub fn find(&self, name: &str) -> (res: Option<&OtoroshExposedResource>)
        ensures
            res.deep_view() == match first_index(self.deep_view().resources, goes_by(name@)) {
                Some(i) => Some(self.deep_view().resources[i]),
                None => None,
            },
    {
        let ghost s = self.deep_view().resources;
        let mut i: usize = 0;
        while i < self.resources.len()
            invariant
                i <= self.resources.len(),
                s == self.deep_view().resources,
                forall|j: int| 0 <= j < i ==> !goes_by(name@)(s[j]),
            decreases self.resources.len() - i,
        {
            let r = &self.resources[i];
            if str_eq(r.plural_name.as_str(), name) || str_eq(r.singular_name.as_str(), name)
                || str_eq(r.kind.as_str(), name) {
                proof {
                    lemma_first_index_is(s, goes_by(name@), i as int);
                }
                return Some(r);
            }
            i = i + 1;
        }
        proof {
            lemma_first_index_none(s, goes_by(name@));
        }
        None
    }
}

} // verus!
