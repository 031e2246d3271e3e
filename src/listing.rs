//! Directory listings: which children are reported, and how.

use vstd::prelude::*;
use crate::files::prefixed;

verus! {

/// What could be read of an entry's metadata.
#[derive(Clone, Copy, Debug, PartialEq, Eq, Structural)]
pub struct EntryMeta {
    /// Size in bytes.
    pub size: u64,
    /// Seconds since the epoch of the last change, where the system gave it.
    pub modified: Option<u64>,
}

/// One child of a directory as the system showed it.
#[derive(Clone, Debug)]
pub struct RawEntry {
    /// The final component of its path, where that is valid UTF-8.
    pub name: Option<String>,
    /// Its full path.
    pub path: String,
    /// Whether it is a directory.
    pub is_dir: bool,
    /// Its metadata, or `None` where that could not be read.
    pub meta: Option<EntryMeta>,
}

/// One child of a directory as the listing reports it.
#[derive(Clone, Debug)]
pub struct DirEntry {
    pub name: String,
    pub path: String,
    pub is_dir: bool,
    pub size: u64,
    pub modified: u64,
}

/// The value of a reported entry.
pub ghost struct EntryView {
    pub name: Seq<char>,
    pub path: Seq<char>,
    pub is_dir: bool,
    pub size: u64,
    pub modified: u64,
}

impl View for DirEntry {
    type V = EntryView;

    open spec fn view(&self) -> EntryView {
        EntryView {
            name: self.name@,
            path: self.path@,
            is_dir: self.is_dir,
            size: self.size,
            modified: self.modified,
        }
    }
}

/// The report of one child: none where its metadata could not be read; a
/// name that is not UTF-8 shows as "unknown", a missing time as 0.
pub open spec fn entry_of(raw: RawEntry) -> Option<EntryView> {
    match raw.meta {
        None => None,
        Some(m) => Some(
            EntryView {
                name: match raw.name {
                    Some(n) => n@,
                    None => "unknown"@,
                },
                path: raw.path@,
                is_dir: raw.is_dir,
                size: m.size,
                modified: match m.modified {
                    Some(t) => t,
                    None => 0,
                },
            },
        ),
    }
}

/// The reports of the children in `items`, in their order; `None` stands for
/// a child that could not be read at all. Unreadable children are skipped.
pub open spec fn listed(items: Seq<Option<RawEntry>>) -> Seq<EntryView>
    decreases items.len(),
{
    if items.len() == 0 {
        Seq::empty()
    } else {
        let rest = listed(items.drop_last());
        match items.last() {
            Some(raw) => match entry_of(raw) {
                Some(e) => rest.push(e),
                None => rest,
            },
            None => rest,
        }
    }
}

/// Every child that was read with its metadata shows in the listing, with
/// its UTF-8 name, path and directory flag as read: a directory just created shows
/// with `is_dir` set.
pub proof fn lemma_listing_keeps_readable(items: Seq<Option<RawEntry>>, i: int)
    requires
        0 <= i < items.len(),
        items[i] is Some,
        items[i]->Some_0.meta is Some,
    ensures
        entry_of(items[i]->Some_0) is Some,
        listed(items).contains(entry_of(items[i]->Some_0)->Some_0),
        entry_of(items[i]->Some_0)->Some_0.is_dir == items[i]->Some_0.is_dir,
        entry_of(items[i]->Some_0)->Some_0.path == items[i]->Some_0.path@,
        items[i]->Some_0.name is Some ==> entry_of(items[i]->Some_0)->Some_0.name
            == items[i]->Some_0.name->Some_0@,
    decreases items.len(),
{
    let e = entry_of(items[i]->Some_0)->Some_0;
    if i == items.len() - 1 {
        assert(listed(items).last() == e);
    } else {
        let pre = items.drop_last();
        assert(pre[i] == items[i]);
        lemma_listing_keeps_readable(pre, i);
        let k = choose|k: int| 0 <= k < listed(pre).len() && listed(pre)[k] == e;
        assert(listed(items)[k] == e);
    }
}

/// The values of `v`.
pub open spec fn views(v: Seq<DirEntry>) -> Seq<EntryView> {
    v.map_values(|e: DirEntry| e@)
}

/// The report of one child, as `entry_of` gives it.
pub fn report_entry(raw: &RawEntry) -> (r: Option<DirEntry>)
    ensures
        r is None <==> entry_of(*raw) is None,
        r is Some ==> entry_of(*raw) == Some(r->Some_0@),
{
    match raw.meta {
        None => None,
        Some(m) => {
            let name = match &raw.name {
                Some(n) => n.clone(),
                None => String::from_str("unknown"),
            };
            let modified: u64 = match m.modified {
                Some(t) => t,
                None => 0,
            };
            Some(DirEntry { name, path: raw.path.clone(), is_dir: raw.is_dir, size: m.size, modified })
        },
    }
}

/// The reports of the readable children in `items`.
pub fn collect_entries(items: &Vec<Option<RawEntry>>) -> (r: Vec<DirEntry>)
    ensures
        views(r@) == listed(items@),
{
    let mut r: Vec<DirEntry> = Vec::new();
    let mut i: usize = 0;
    while i < items.len()
        invariant
            i <= items@.len(),
            views(r@) == listed(items@.take(i as int)),
        decreases items@.len() - i,
    {
        assert(items@.take(i + 1).drop_last() =~= items@.take(i as int));
        match &items[i] {
            Some(raw) => match report_entry(raw) {
                Some(e) => {
                    r.push(e);
                },
                None => {},
            },
            None => {},
        }
        assert(views(r@) =~= listed(items@.take(i + 1)));
        i = i + 1;
    }
    assert(items@.take(i as int) =~= items@);
    r
}

/// The reply to a listing of a directory: an error where it does not exist
/// or cannot be read, else the reports of its readable children.
pub fn list_dir_outcome(exists: bool, listing: Result<Vec<Option<RawEntry>>, String>) -> (r: Result<
    Vec<DirEntry>,
    String,
>)
    ensures
        !exists ==> r is Err && r->Err_0@ == "Directory does not exist"@,
        exists && listing is Err ==> r is Err && r->Err_0@ == "Failed to read directory: "@
            + listing->Err_0@,
        exists && listing is Ok ==> r is Ok && views(r->Ok_0@) == listed(listing->Ok_0@),
{
    if !exists {
        return Err(String::from_str("Directory does not exist"));
    }
    match listing {
        Ok(items) => Ok(collect_entries(&items)),
        Err(e) => Err(prefixed("Failed to read directory: ", e.as_str())),
    }
}

} // verus!
