//! Collections as the admin client lists them.

use vstd::prelude::*;
use vstd::string::*;
use crate::database::query::{copy_opt_string, opt_view};
use crate::flows::opt_json;
use crate::json::{Json, JsonValue};
use crate::text::{chars_of, is_prefix, starts_with, str_eq};

verus! {

/// A collection's settings as the API returns them.
#[derive(Debug)]
pub struct Collection {
    pub collection: String,
    pub icon: Option<String>,
    pub note: Option<String>,
    pub display_template: Option<String>,
    pub hidden: bool,
    pub singleton: bool,
    pub sort: Option<i32>,
    pub accountability: Option<String>,
    pub color: Option<String>,
    pub group: Option<String>,
    pub collapse: Option<String>,
    pub translations: Option<JsonValue>,
    pub versioning: bool,
    pub sort_field: Option<String>,
    pub archive_field: Option<String>,
    pub archive_value: Option<String>,
    pub unarchive_value: Option<String>,
}

/// Mathematical view of a collection.
pub struct CollectionView {
    pub collection: Seq<char>,
    pub icon: Option<Seq<char>>,
    pub note: Option<Seq<char>>,
    pub display_template: Option<Seq<char>>,
    pub hidden: bool,
    pub singleton: bool,
    pub sort: Option<i32>,
    pub accountability: Option<Seq<char>>,
    pub color: Option<Seq<char>>,
    pub group: Option<Seq<char>>,
    pub collapse: Option<Seq<char>>,
    pub translations: Option<Json>,
    pub versioning: bool,
    pub sort_field: Option<Seq<char>>,
    pub archive_field: Option<Seq<char>>,
    pub archive_value: Option<Seq<char>>,
    pub unarchive_value: Option<Seq<char>>,
}

/// Whether a collection belongs to the system (its name starts with `nexus_`).
pub open spec fn is_system_name(name: Seq<char>) -> bool {
    is_prefix("nexus_"@, name)
}

impl Collection {
    pub open spec fn view(&self) -> CollectionView {
        CollectionView {
            collection: self.collection@,
            icon: opt_view(self.icon),
            note: opt_view(self.note),
            display_template: opt_view(self.display_template),
            hidden: self.hidden,
            singleton: self.singleton,
            sort: self.sort,
            accountability: opt_view(self.accountability),
            color: opt_view(self.color),
            group: opt_view(self.group),
            collapse: opt_view(self.collapse),
            translations: opt_json(self.translations),
            versioning: self.versioning,
            sort_field: opt_view(self.sort_field),
            archive_field: opt_view(self.archive_field),
            archive_value: opt_view(self.archive_value),
            unarchive_value: opt_view(self.unarchive_value),
        }
    }

    /// A copy of this collection.
    pub fn copy(&self) -> (r: Collection)
        ensures
            r.view() == self.view(),
    {
        Collection {
            collection: self.collection.clone(),
            icon: copy_opt_string(&self.icon),
            note: copy_opt_string(&self.note),
            display_template: copy_opt_string(&self.display_template),
            hidden: self.hidden,
            singleton: self.singleton,
            sort: self.sort,
            accountability: copy_opt_string(&self.accountability),
            color: copy_opt_string(&self.color),
            group: copy_opt_string(&self.group),
            collapse: copy_opt_string(&self.collapse),
            translations: match &self.translations {
                Some(t) => Some(t.copy()),
                None => None,
            },
            versioning: self.versioning,
            sort_field: copy_opt_string(&self.sort_field),
            archive_field: copy_opt_string(&self.archive_field),
            archive_value: copy_opt_string(&self.archive_value),
            unarchive_value: copy_opt_string(&self.unarchive_value),
        }
    }

    /// Whether this is a system collection (named `nexus_...`).
    pub fn is_system(&self) -> (r: bool)
        ensures
            r == is_system_name(self.collection@),
    {
        let name = chars_of(self.collection.as_str());
        let prefix = chars_of("nexus_");
        starts_with(name.as_slice(), prefix.as_slice())
    }

    /// The icon to show: the collection's own, else `database`.
    pub fn display_icon(&self) -> (r: &str)
        ensures
            r@ == (match self.icon {
                Some(i) => i@,
                None => "database"@,
            }),
    {
        match &self.icon {
            Some(i) => i.as_str(),
            None => "database",
        }
    }
}

/// Views of a list of collections.
pub open spec fn collection_views(v: Seq<Collection>) -> Seq<CollectionView> {
    Seq::new(v.len(), |i: int| v[i].view())
}

/// The collections that are neither hidden nor system ones, in order.
pub open spec fn visible(cs: Seq<CollectionView>) -> Seq<CollectionView>
    decreases cs.len(),
{
    if cs.len() == 0 {
        seq![]
    } else {
        let r = visible(cs.drop_last());
        if !cs.last().hidden && !is_system_name(cs.last().collection) { r.push(cs.last()) } else { r }
    }
}

/// The first collection named `name`.
pub open spec fn find_collection(cs: Seq<CollectionView>, name: Seq<char>) -> Option<CollectionView>
    decreases cs.len(),
{
    if cs.len() == 0 {
        None
    } else if cs[0].collection == name {
        Some(cs[0])
    } else {
        find_collection(cs.skip(1), name)
    }
}

/// The collections the client has loaded.
pub struct CollectionsStore {
    pub collections: Vec<Collection>,
    pub loading: bool,
}

impl CollectionsStore {
    /// An empty store, not loading.
    pub fn new() -> (r: CollectionsStore)
        ensures
            r.collections@.len() == 0,
            !r.loading,
    {
        CollectionsStore { collections: Vec::new(), loading: false }
    }

    /// The collections to list: those neither hidden nor system ones.
    pub fn visible_collections(&self) -> (r: Vec<Collection>)
        ensures
            collection_views(r@) == visible(collection_views(self.collections@)),
    {
        let ghost cv = collection_views(self.collections@);
        let mut r: Vec<Collection> = Vec::new();
        let mut i: usize = 0;
        assert(cv.take(0) =~= Seq::<CollectionView>::empty());
        assert(collection_views(r@) =~= Seq::<CollectionView>::empty());
        while i < self.collections.len()
            invariant
                cv == collection_views(self.collections@),
                i <= self.collections@.len(),
                collection_views(r@) == visible(cv.take(i as int)),
            decreases self.collections@.len() - i,
        {
            proof {
                assert(cv.take(i as int + 1).drop_last() =~= cv.take(i as int));
                assert(cv.take(i as int + 1).last() == self.collections@[i as int].view());
            }
            let c = &self.collections[i];
            if !c.hidden && !c.is_system() {
                let k = c.copy();
                let ghost before = r@;
                r.push(k);
                assert(collection_views(r@) =~= collection_views(before).push(k.view()));
            }
            i = i + 1;
        }
        assert(cv.take(self.collections@.len() as int) =~= cv);
        r
    }

    /// The collection named `name`, if loaded.
    pub fn get_collection(&self, name: &str) -> (r: Option<Collection>)
        ensures
            match r {
                Some(c) => find_collection(collection_views(self.collections@), name@) == Some(c.view()),
                None => find_collection(collection_views(self.collections@), name@) is None,
            },
    {
        let ghost cv = collection_views(self.collections@);
        let mut i: usize = 0;
        assert(cv.skip(0) =~= cv);
        while i < self.collections.len()
            invariant
                cv == collection_views(self.collections@),
                i <= self.collections@.len(),
                find_collection(cv, name@) == find_collection(cv.skip(i as int), name@),
            decreases self.collections@.len() - i,
        {
            proof {
                assert(cv.skip(i as int).skip(1) =~= cv.skip(i as int + 1));
                assert(cv.skip(i as int)[0] == self.collections@[i as int].view());
            }
            if str_eq(self.collections[i].collection.as_str(), name) {
                return Some(self.collections[i].copy());
            }
            i = i + 1;
        }
        assert(cv.skip(self.collections@.len() as int) =~= Seq::<CollectionView>::empty());
        None
    }
}

} // verus!
