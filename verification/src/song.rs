//! Song descriptions: the metadata map, `FileInfo`, and song collections.

use vstd::prelude::*;
use vstd::string::StrSliceExecFns;

use crate::text::{ext_of_name, spec_file_name, str_eq, stem_of_name, spec_stem_of_name};
use crate::text::{path_segments, spec_segments};
use crate::value::{Value, ValueView};

verus! {

/// One metadata binding, mathematically: a key and its value.
pub type MetaEntryView = (Seq<char>, ValueView);

/// The content of an association list of metadata bindings.
pub open spec fn entries_view(s: Seq<(String, Value)>) -> Seq<MetaEntryView> {
    s.map_values(|e: (String, Value)| (e.0@, e.1@))
}

/// What looking `k` up in an association list yields: the first entry whose
/// key reads `k`.
pub open spec fn spec_lookup(s: Seq<MetaEntryView>, k: Seq<char>) -> Option<ValueView>
    decreases s.len(),
{
    if s.len() == 0 {
        None
    } else if s[0].0 == k {
        Some(s[0].1)
    } else {
        spec_lookup(s.skip(1), k)
    }
}

proof fn lemma_lookup_found(s: Seq<MetaEntryView>, i: int, k: Seq<char>)
    requires
        0 <= i < s.len(),
        s[i].0 == k,
        forall|j: int| 0 <= j < i ==> (#[trigger] s[j]).0 != k,
    ensures
        spec_lookup(s, k) == Some(s[i].1),
    decreases i,
{
    if i == 0 {
    } else {
        lemma_lookup_found(s.skip(1), i - 1, k);
        assert(s.skip(1)[i - 1] == s[i]);
        assert(forall|j: int| 0 <= j < i - 1 ==> (#[trigger] s.skip(1)[j]) == s[j + 1]);
    }
}

proof fn lemma_lookup_none(s: Seq<MetaEntryView>, k: Seq<char>)
    requires
        forall|j: int| 0 <= j < s.len() ==> (#[trigger] s[j]).0 != k,
    ensures
        spec_lookup(s, k) is None,
    decreases s.len(),
{
    if s.len() > 0 {
        lemma_lookup_none(s.skip(1), k);
    }
}

proof fn lemma_lookup_update_same(s: Seq<MetaEntryView>, i: int, e: MetaEntryView)
    requires
        0 <= i < s.len(),
        forall|j: int| 0 <= j < i ==> (#[trigger] s[j]).0 != e.0,
    ensures
        spec_lookup(s.update(i, e), e.0) == Some(e.1),
    decreases i,
{
    let t = s.update(i, e);
    if i == 0 {
        assert(t[0] == e);
    } else {
        lemma_lookup_update_same(s.skip(1), i - 1, e);
        assert(t[0] == s[0]);
        assert(t.skip(1) =~= s.skip(1).update(i - 1, e));
    }
}

proof fn lemma_lookup_update_other(s: Seq<MetaEntryView>, i: int, e: MetaEntryView, k: Seq<char>)
    requires
        0 <= i < s.len(),
        s[i].0 == e.0,
        k != e.0,
    ensures
        spec_lookup(s.update(i, e), k) == spec_lookup(s, k),
    decreases i,
{
    let t = s.update(i, e);
    if i == 0 {
        assert(t[0] == e);
        assert(t.skip(1) =~= s.skip(1));
    } else {
        lemma_lookup_update_other(s.skip(1), i - 1, e, k);
        assert(t[0] == s[0]);
        assert(t.skip(1) =~= s.skip(1).update(i - 1, e));
    }
}

proof fn lemma_lookup_push(s: Seq<MetaEntryView>, e: MetaEntryView, k: Seq<char>)
    ensures
        spec_lookup(s.push(e), k) == if spec_lookup(s, k) is Some {
            spec_lookup(s, k)
        } else if e.0 == k {
            Some(e.1)
        } else {
            None::<ValueView>
        },
    decreases s.len(),
{
    if s.len() == 0 {
        assert(s.push(e)[0] == e);
        assert(s.push(e).skip(1) =~= Seq::<MetaEntryView>::empty());
        assert(spec_lookup(Seq::<MetaEntryView>::empty(), k) is None);
        assert(spec_lookup(s.push(e), k) == if e.0 == k {
            Some(e.1)
        } else {
            None::<ValueView>
        });
    } else {
        lemma_lookup_push(s.skip(1), e, k);
        assert(s.push(e)[0] == s[0]);
        assert(s.push(e).skip(1) =~= s.skip(1).push(e));
        if s[0].0 == k {
            assert(spec_lookup(s, k) == Some(s[0].1));
            assert(spec_lookup(s.push(e), k) == Some(s[0].1));
        } else {
            assert(spec_lookup(s, k) == spec_lookup(s.skip(1), k));
            assert(spec_lookup(s.push(e), k) == spec_lookup(s.skip(1).push(e), k));
        }
    }
}

/// A map from metadata keys to values, looked up by the key's characters.
#[derive(Debug)]
pub struct MetaMap {
    entries: Vec<(String, Value)>,
}

impl View for MetaMap {
    type V = Seq<MetaEntryView>;

    closed spec fn view(&self) -> Seq<MetaEntryView> {
        entries_view(self.entries@)
    }
}

impl Clone for MetaMap {
    fn clone(&self) -> (r: Self)
        ensures
            r@ == self@,
    {
        let n = self.entries.len();
        let mut out: Vec<(String, Value)> = Vec::new();
        let mut i: usize = 0;
        while i < n
            invariant
                n == self.entries@.len(),
                i <= n,
                entries_view(out@) =~= entries_view(self.entries@).take(i as int),
            decreases n - i,
        {
            let ghost old_view = entries_view(out@);
            out.push((self.entries[i].0.clone(), self.entries[i].1.clone()));
            proof {
                assert(entries_view(out@) =~= old_view.push(
                    (self.entries@[i as int].0@, self.entries@[i as int].1@),
                ));
                assert(entries_view(out@) =~= entries_view(self.entries@).take(i + 1));
            }
            i += 1;
        }
        proof {
            assert(entries_view(self.entries@).take(n as int) =~= entries_view(self.entries@));
        }
        MetaMap { entries: out }
    }
}

impl MetaMap {
    /// The value stored under `k`, if any.
    pub open spec fn spec_get(&self, k: Seq<char>) -> Option<ValueView> {
        spec_lookup(self@, k)
    }

    pub fn new() -> (r: MetaMap)
        ensures
            r@.len() == 0,
    {
        MetaMap { entries: Vec::new() }
    }

    /// Index of the first entry whose key reads `key`.
    fn find(&self, key: &str) -> (r: Option<usize>)
        ensures
            match r {
                Some(i) => i < self@.len() && self@[i as int].0 == key@ && forall|j: int|
                    0 <= j < i ==> (#[trigger] self@[j]).0 != key@,
                None => forall|j: int| 0 <= j < self@.len() ==> (#[trigger] self@[j]).0 != key@,
            },
    {
        let n = self.entries.len();
        let mut i: usize = 0;
        while i < n
            invariant
                n == self.entries@.len(),
                n == self@.len(),
                i <= n,
                forall|j: int| 0 <= j < i ==> (#[trigger] self@[j]).0 != key@,
            decreases n - i,
        {
            if str_eq(self.entries[i].0.as_str(), key) {
                return Some(i);
            }
            i += 1;
        }
        None
    }

    /// Look a key up.
    pub fn get(&self, key: &str) -> (r: Option<&Value>)
        ensures
            match r {
                Some(v) => self.spec_get(key@) == Some(v@),
                None => self.spec_get(key@) is None,
            },
    {
        match self.find(key) {
            Some(i) => {
                proof {
                    lemma_lookup_found(self@, i as int, key@);
                }
                Some(&self.entries[i].1)
            },
            None => {
                proof {
                    lemma_lookup_none(self@, key@);
                }
                None
            },
        }
    }

    /// Store `value` under `key`, replacing what was there.
    pub fn insert(&mut self, key: &str, value: Value)
        ensures
            final(self).spec_get(key@) == Some(value@),
            forall|k: Seq<char>|
                k != key@ ==> #[trigger] final(self).spec_get(k) == old(self).spec_get(k),
            final(self)@.len() <= old(self)@.len() + 1,
    {
        let ghost entry_view: MetaEntryView = (key@, value@);
        match self.find(key) {
            Some(i) => {
                let ghost olds = self@;
                self.entries[i] = (key.to_owned(), value);
                proof {
                    assert(self@ =~= olds.update(i as int, entry_view));
                    lemma_lookup_update_same(olds, i as int, entry_view);
                    assert forall|k: Seq<char>| k != key@ implies #[trigger] spec_lookup(self@, k)
                        == spec_lookup(olds, k) by {
                        lemma_lookup_update_other(olds, i as int, entry_view, k);
                    }
                }
            },
            None => {
                let ghost olds = self@;
                self.entries.push((key.to_owned(), value));
                proof {
                    assert(self@ =~= olds.push(entry_view));
                    lemma_lookup_none(olds, key@);
                    lemma_lookup_push(olds, entry_view, key@);
                    assert forall|k: Seq<char>| k != key@ implies #[trigger] spec_lookup(self@, k)
                        == spec_lookup(olds, k) by {
                        lemma_lookup_push(olds, entry_view, k);
                    }
                }
            },
        }
    }

    /// How a value reads after the map is cleared: text becomes empty, a
    /// number becomes zero, anything else stays.
    pub open spec fn spec_cleared(o: ValueView, n: ValueView) -> bool {
        match o {
            ValueView::Text(_) => n == ValueView::Text(Seq::<char>::empty()),
            ValueView::Number(_) => n == ValueView::Number(0),
            _ => n == o,
        }
    }

    /// Blank every text value and zero every number, keeping the keys.
    pub fn clear_values(&mut self)
        ensures
            final(self)@.len() == old(self)@.len(),
            forall|i: int|
                0 <= i < old(self)@.len() ==> (#[trigger] final(self)@[i]).0 == old(self)@[i].0
                    && Self::spec_cleared(old(self)@[i].1, final(self)@[i].1),
    {
        let n = self.entries.len();
        let mut out: Vec<(String, Value)> = Vec::new();
        let mut i: usize = 0;
        while i < n
            invariant
                n == self.entries@.len(),
                i <= n,
                entries_view(out@).len() == i,
                forall|j: int|
                    0 <= j < i ==> (#[trigger] entries_view(out@)[j]).0 == entries_view(
                        self.entries@,
                    )[j].0 && Self::spec_cleared(
                        entries_view(self.entries@)[j].1,
                        entries_view(out@)[j].1,
                    ),
            decreases n - i,
        {
            let key = self.entries[i].0.clone();
            let cleared = match &self.entries[i].1 {
                Value::Text(_) => Value::Text(String::new()),
                Value::Number(_) => Value::Number(0),
                other => other.clone(),
            };
            let ghost old_view = entries_view(out@);
            let ghost kv = key@;
            let ghost cv = cleared@;
            out.push((key, cleared));
            proof {
                assert(entries_view(out@) =~= old_view.push((kv, cv)));
            }
            i += 1;
        }
        self.entries = out;
    }
}

/// The mathematical content of a `FileInfo`.
pub ghost struct FileInfoView {
    pub path: Seq<char>,
    pub meta: Seq<MetaEntryView>,
}

/// A song as the indexer and the UI know it: a path and its metadata.
#[derive(Debug)]
pub struct FileInfo {
    pub path: String,
    pub meta_data: MetaMap,
}

impl View for FileInfo {
    type V = FileInfoView;

    open spec fn view(&self) -> FileInfoView {
        FileInfoView { path: self.path@, meta: self.meta_data@ }
    }
}

impl Clone for FileInfo {
    fn clone(&self) -> (r: Self)
        ensures
            r@ == self@,
    {
        FileInfo { path: self.path.clone(), meta_data: self.meta_data.clone() }
    }
}

impl FileInfoView {
    /// The value stored under `what`, or the absent marker.
    pub open spec fn spec_get_or_unknown(self, what: Seq<char>) -> ValueView {
        match spec_lookup(self.meta, what) {
            Some(v) => v,
            None => ValueView::Unknown,
        }
    }

    /// `<title> / <composer>`, as both read for display.
    pub open spec fn spec_title_and_composer(self) -> Seq<char> {
        self.spec_get_or_unknown("title"@).spec_display() + " / "@ + self.spec_get_or_unknown(
            "composer"@,
        ).spec_display()
    }

    /// The display name of the song: `<title> / <composer>` (with the file's
    /// extension appended in brackets when there is one) while a composer is
    /// known, else the bare file name, else a fixed marker.
    pub open spec fn spec_full_song_name(self) -> Seq<char> {
        if !(self.spec_get_or_unknown("composer"@) is Unknown) {
            match crate::text::spec_extension(self.path) {
                Some(ext) => self.spec_title_and_composer() + " ["@ + ext + "]"@,
                None => self.spec_title_and_composer(),
            }
        } else {
            match spec_file_name(self.path) {
                Some(name) => name,
                None => "???"@,
            }
        }
    }
}

impl FileInfo {
    /// The song's path.
    pub fn path(&self) -> (r: &String)
        ensures
            r@ == self@.path,
    {
        &self.path
    }

    /// Look a metadata key up, with the absent marker as fallback.
    pub fn get(&self, what: &str) -> (r: Value)
        ensures
            r@ == self@.spec_get_or_unknown(what@),
    {
        match self.meta_data.get(what) {
            Some(v) => v.clone(),
            None => Value::Unknown,
        }
    }

    /// Render `<title> / <composer>`.
    pub fn title_and_composer(&self) -> (r: String)
        ensures
            r@ == self@.spec_title_and_composer(),
    {
        let title = self.get("title");
        let composer = self.get("composer");
        let mut out = title.display_string();
        out.append(" / ");
        out.append(composer.display_string().as_str());
        out
    }

    /// Render the song's display name.
    pub fn full_song_name(&self) -> (r: String)
        ensures
            r@ == self@.spec_full_song_name(),
    {
        let composer = self.get("composer");
        if !composer.is_unknown() {
            let segs = path_segments(self.path.as_str());
            let ext = if segs.len() > 0 {
                proof {
                    assert(spec_segments(self.path@).last() == segs.deep_view()[segs@.len() - 1]);
                }
                ext_of_name(segs[segs.len() - 1].as_str())
            } else {
                None
            };
            let mut out = self.title_and_composer();
            match ext {
                Some(e) => {
                    out.append(" [");
                    out.append(e.as_str());
                    out.append("]");
                },
                None => {},
            }
            out
        } else {
            let segs = path_segments(self.path.as_str());
            if segs.len() > 0 {
                proof {
                    assert(spec_segments(self.path@).last() == segs.deep_view()[segs@.len() - 1]);
                }
                let name = segs[segs.len() - 1].clone();
                name
            } else {
                "???".to_owned()
            }
        }
    }

    /// The song's title text, when one is stored.
    pub fn title(&self) -> (r: Option<String>)
        ensures
            match r {
                Some(t) => self.meta_data.spec_get("title"@) matches Some(ValueView::Text(s)) && s
                    == t@,
                None => !(self.meta_data.spec_get("title"@) matches Some(ValueView::Text(_))),
            },
    {
        match self.meta_data.get("title") {
            Some(Value::Text(t)) => Some(t.clone()),
            _ => None,
        }
    }

    /// The stem of the song's file name.
    pub fn file_stem(&self) -> (r: Option<String>)
        ensures
            match r {
                Some(s) => spec_file_name(self@.path) matches Some(name) && s@
                    == spec_stem_of_name(name),
                None => spec_file_name(self@.path) is None,
            },
    {
        let segs = path_segments(self.path.as_str());
        if segs.len() > 0 {
            proof {
                assert(spec_segments(self.path@).last() == segs.deep_view()[segs@.len() - 1]);
            }
            Some(stem_of_name(segs[segs.len() - 1].as_str()))
        } else {
            None
        }
    }
}

/// A list of songs that the UI can page through and play from.
pub trait SongCollection {
    /// The songs held.
    spec fn spec_songs(&self) -> Seq<FileInfoView>;

    /// How many songs are held.
    fn len(&self) -> (r: usize)
        ensures
            r == self.spec_songs().len(),
    ;

    /// The song at `index`.
    fn get(&self, index: usize) -> (r: FileInfo)
        requires
            index < self.spec_songs().len(),
        ensures
            r@ == self.spec_songs()[index as int],
    ;

    /// The position of the song with the same path, if one is held.
    fn index_of(&self, song: &FileInfo) -> (r: Option<usize>)
        ensures
            match r {
                Some(i) => i < self.spec_songs().len() && self.spec_songs()[i as int].path
                    == song@.path,
                None => forall|j: int|
                    0 <= j < self.spec_songs().len() ==> (#[trigger] self.spec_songs()[j]).path
                        != song@.path,
            },
    ;
}

/// The content of a vector of songs.
pub open spec fn songs_view(s: Seq<FileInfo>) -> Seq<FileInfoView> {
    s.map_values(|fi: FileInfo| fi@)
}

/// A plain vector of songs.
pub struct SongArray {
    pub songs: Vec<FileInfo>,
}

impl SongCollection for SongArray {
    open spec fn spec_songs(&self) -> Seq<FileInfoView> {
        songs_view(self.songs@)
    }

    fn len(&self) -> (r: usize) {
        self.songs.len()
    }

    fn get(&self, index: usize) -> (r: FileInfo) {
        self.songs[index].clone()
    }

    fn index_of(&self, song: &FileInfo) -> (r: Option<usize>) {
        let n = self.songs.len();
        let mut i: usize = 0;
        while i < n
            invariant
                n == self.songs@.len(),
                i <= n,
                forall|j: int| 0 <= j < i ==> (#[trigger] songs_view(self.songs@)[j]).path
                    != song@.path,
            decreases n - i,
        {
            if str_eq(self.songs[i].path.as_str(), song.path.as_str()) {
                return Some(i);
            }
            i += 1;
        }
        None
    }
}

} // verus!
