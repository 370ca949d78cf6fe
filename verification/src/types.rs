//! The values exchanged with the daemon.

use vstd::prelude::*;
use crate::text::same_text;

verus! {

/// The key with its value that an entry list gives to each key: where a key
/// stands more than once, its last entry counts.
pub open spec fn entries_map(entries: Seq<(String, String)>) -> Map<Seq<char>, Seq<char>>
    decreases entries.len(),
{
    if entries.len() == 0 {
        Map::empty()
    } else {
        entries_map(entries.drop_last()).insert(entries.last().0@, entries.last().1@)
    }
}

/// Named configuration parameters of a remote: a map from key to value, kept
/// as the list of the entries made.
#[derive(Debug, Clone)]
pub struct Parameters {
    /// The entries in the order they were made.
    pub entries: Vec<(String, String)>,
}

impl View for Parameters {
    type V = Map<Seq<char>, Seq<char>>;

    open spec fn view(&self) -> Map<Seq<char>, Seq<char>> {
        entries_map(self.entries@)
    }
}

impl Parameters {
    /// No parameters.
    pub fn new() -> (r: Self)
        ensures
            r@ == Map::<Seq<char>, Seq<char>>::empty(),
            r.entries@.len() == 0,
    {
        Parameters { entries: Vec::new() }
    }

    /// Gives `key` the value `value`, in place of any value it had.
    pub fn insert(&mut self, key: String, value: String)
        ensures
            final(self)@ == old(self)@.insert(key@, value@),
            final(self).entries@ == old(self).entries@.push((key, value)),
    {
        proof {
            assert(self.entries@.push((key, value)).drop_last() == self.entries@);
        }
        self.entries.push((key, value));
    }

    /// The value of `key`, if it has one.
    pub fn get(&self, key: &str) -> (r: Option<&String>)
        ensures
            match r {
                Some(v) => self@.contains_key(key@) && self@[key@] == v@,
                None => !self@.contains_key(key@),
            },
    {
        let mut i: usize = self.entries.len();
        proof {
            assert(self.entries@.take(i as int) == self.entries@);
        }
        while i > 0
            invariant
                i <= self.entries@.len(),
                self@.contains_key(key@) <==> entries_map(self.entries@.take(i as int)).contains_key(
                    key@,
                ),
                self@.contains_key(key@) ==> self@[key@] == entries_map(
                    self.entries@.take(i as int),
                )[key@],
            decreases i,
        {
            let ghost s = self.entries@.take(i as int);
            proof {
                assert(s.drop_last() == self.entries@.take(i - 1));
                assert(s.last() == self.entries@[i - 1]);
                assert(entries_map(s) == entries_map(s.drop_last()).insert(s.last().0@, s.last().1@));
            }
            i = i - 1;
            if same_text(self.entries[i].0.as_str(), key) {
                return Some(&self.entries[i].1);
            }
        }
        None
    }

    /// A copy with the same entries.
    pub fn duplicate(&self) -> (r: Self)
        ensures
            r.entries@ == self.entries@,
            r@ == self@,
    {
        let mut entries: Vec<(String, String)> = Vec::new();
        let mut i: usize = 0;
        while i < self.entries.len()
            invariant
                i <= self.entries@.len(),
                entries@ == self.entries@.take(i as int),
            decreases self.entries@.len() - i,
        {
            let key = self.entries[i].0.clone();
            let value = self.entries[i].1.clone();
            entries.push((key, value));
            i = i + 1;
            proof {
                assert(self.entries@.take(i as int) == self.entries@.take(i - 1).push(
                    self.entries@[i - 1],
                ));
            }
        }
        proof {
            assert(self.entries@.take(i as int) == self.entries@);
        }
        Parameters { entries }
    }

    /// Whether no key has a value.
    pub fn is_empty(&self) -> (r: bool)
        ensures
            r == (self@ == Map::<Seq<char>, Seq<char>>::empty()),
            r == (self.entries@.len() == 0),
    {
        proof {
            if self.entries@.len() > 0 {
                assert(self@.contains_key(self.entries@.last().0@));
            }
        }
        self.entries.len() == 0
    }
}

/// The reply to a listing of the configured remotes.
#[derive(Debug, Clone)]
pub struct ListRemotesResponse {
    pub remotes: Vec<String>,
}

/// The reply to a dump of the configuration: each remote with its parameters.
#[derive(Debug, Clone)]
pub struct ConfigDumpResponse {
    pub remotes: Vec<(String, Parameters)>,
}

/// What a request to create a remote carries.
#[derive(Debug, Clone)]
pub struct ConfigCreateRequest {
    pub name: String,
    pub remote_type: String,
    pub parameters: Parameters,
}

/// What a request to update a remote carries.
#[derive(Debug, Clone)]
pub struct ConfigUpdateRequest {
    pub name: String,
    pub parameters: Parameters,
}

/// What a request to delete a remote carries.
#[derive(Debug, Clone)]
pub struct ConfigDeleteRequest {
    pub name: String,
}

/// A file or directory as the daemon lists it.
#[derive(Debug, Clone)]
pub struct FileItem {
    /// File or directory name.
    pub name: String,
    /// File size in bytes (0 for directories).
    pub size: i64,
    /// Last modification time.
    pub mod_time: String,
    /// True if this is a directory.
    pub is_dir: bool,
}

/// The reply to a listing of files.
#[derive(Debug, Clone)]
pub struct ListFilesResponse {
    /// The entries; `None` where the reply holds no list.
    pub list: Option<Vec<FileItem>>,
}

/// An entry of the file browser.
#[derive(Debug, Clone)]
pub enum NavigationItem {
    /// A file or directory.
    File(FileItem),
}

impl NavigationItem {
    /// The file or directory behind the entry.
    pub open spec fn item(self) -> FileItem {
        match self {
            NavigationItem::File(item) => item,
        }
    }

    /// The display name of the entry.
    pub fn name(&self) -> (r: &str)
        ensures
            r@ == self.item().name@,
    {
        match self {
            NavigationItem::File(item) => item.name.as_str(),
        }
    }

    /// Whether the entry is a directory.
    pub fn is_dir(&self) -> (r: bool)
        ensures
            r == self.item().is_dir,
    {
        match self {
            NavigationItem::File(item) => item.is_dir,
        }
    }
}

/// The entries of the file browser for a listing, in the listing's order.
pub open spec fn as_navigation(items: Seq<FileItem>) -> Seq<NavigationItem> {
    items.map_values(|item: FileItem| NavigationItem::File(item))
}

/// Wraps each listed file as an entry of the file browser.
pub fn navigation_items(items: Vec<FileItem>) -> (r: Vec<NavigationItem>)
    ensures
        r@ == as_navigation(items@),
{
    // `pop` takes from the end, so the entries pass through a second list
    // to come out in the listing's order.
    let mut items = items;
    let ghost all = items@;
    let mut reversed: Vec<NavigationItem> = Vec::new();
    while items.len() > 0
        invariant
            items@.len() + reversed@.len() == all.len(),
            items@ == all.take(items@.len() as int),
            forall|j: int|
                0 <= j < reversed@.len() ==> reversed@[j] == NavigationItem::File(
                    all[all.len() - 1 - j],
                ),
        decreases items@.len(),
    {
        let item = items.pop().unwrap();
        reversed.push(NavigationItem::File(item));
    }
    let mut out: Vec<NavigationItem> = Vec::new();
    while reversed.len() > 0
        invariant
            reversed@.len() + out@.len() == all.len(),
            forall|j: int|
                0 <= j < reversed@.len() ==> reversed@[j] == NavigationItem::File(
                    all[all.len() - 1 - j],
                ),
            forall|j: int| 0 <= j < out@.len() ==> out@[j] == NavigationItem::File(all[j]),
        decreases reversed@.len(),
    {
        let entry = reversed.pop().unwrap();
        out.push(entry);
    }
    assert(out@ =~= as_navigation(all));
    out
}

} // verus!
