//! The song index: a full-text index over titles and composers, the
//! heuristics that name a song from its path or header, and the result list
//! the UI pages through.
//!
//! The index itself is a collection of an outside search engine, held behind
//! a trusted handle whose contents are modelled as multisets of documents; the
//! classification, the document construction and the result handling are
//! verified around it.

use std::collections::VecDeque;

use vstd::prelude::*;
use vstd::multiset::Multiset;
use vstd::string::StrSliceExecFns;

use tantivy::schema::{Schema, STORED, TEXT};
use tantivy::{Index, IndexReader, IndexWriter, ReloadPolicy, TantivyDocument};
use tantivy::collector::TopDocs;
use tantivy::query::QueryParser;
use tantivy::schema::Field;
use tantivy::schema::Value as TantivyValue;

use crate::song::{spec_lookup, FileInfo, FileInfoView, MetaMap};
use crate::text::{
    rev_segments, spec_eq_ci, spec_extension, spec_file_stem, spec_rev_segments, spec_starts_with,
    starts_with, stem_of_name, str_eq, str_eq_ci, skip_chars,
};
use crate::value::{MusicError, Value, ValueView};

verus! {

/// How many results a search returns at most.
pub const RESULT_LIMIT: usize = 10000;

/// What a codec or a heuristic knows about a song before it plays.
#[derive(Debug)]
pub struct SongInfo {
    pub title: String,
    pub game: String,
    pub composer: String,
}

/// The mathematical content of a `SongInfo`.
pub ghost struct SongInfoView {
    pub title: Seq<char>,
    pub game: Seq<char>,
    pub composer: Seq<char>,
}

impl View for SongInfo {
    type V = SongInfoView;

    open spec fn view(&self) -> SongInfoView {
        SongInfoView { title: self.title@, game: self.game@, composer: self.composer@ }
    }
}

impl Clone for SongInfo {
    fn clone(&self) -> (r: Self)
        ensures
            r@ == self@,
    {
        SongInfo {
            title: self.title.clone(),
            game: self.game.clone(),
            composer: self.composer.clone(),
        }
    }
}

/// One indexed document: a title, an optional composer, and a path.
pub type DocView = (Seq<char>, Option<Seq<char>>, Seq<char>);

/// The search engine's stored-document type, opaque here.
#[verifier::external_type_specification]
#[verifier::external_body]
pub struct ExTantivyDocument(TantivyDocument);

/// What the search engine's writer holds but has not committed.
pub uninterp spec fn pending_docs(e: &SearchIndex) -> Multiset<DocView>;

/// What the search engine's reader can see.
pub uninterp spec fn committed_docs(e: &SearchIndex) -> Multiset<DocView>;

/// The in-memory full-text index: schema, writer and reader of the outside
/// search engine, opaque to verification; its contents are spoken of through
/// `pending_docs` and `committed_docs`.
#[verifier::external_body]
pub struct SearchIndex {
    index: Index,
    writer: IndexWriter,
    reader: IndexReader,
    title_field: Field,
    composer_field: Field,
    path_field: Field,
}

/// Whether some committed document reads back as this search entry.
pub open spec fn spec_entry_indexed(
    committed: Multiset<DocView>,
    entry: (Option<String>, Option<String>, String),
) -> bool {
    exists|d: DocView| #[trigger] committed.contains(d) && spec_entry_matches(entry, d)
}

/// Whether one returned search entry reads back a stored document.
pub open spec fn spec_entry_matches(
    entry: (Option<String>, Option<String>, String),
    d: DocView,
) -> bool {
    &&& entry.2@ == d.2
    &&& (entry.0 matches Some(t) ==> d.0 == t@)
    &&& (match entry.1 {
        Some(c) => d.1 == Some(c@),
        None => d.1 is None,
    })
}

impl SearchIndex {
    /// Relies on tantivy's `Index::create_in_ram`, `Index::writer` and
    /// `Index::reader_builder`: a fresh in-memory index holds no documents.
    #[verifier::external_body]
    pub fn new() -> (r: Result<SearchIndex, String>)
        ensures
            r matches Ok(s) ==> pending_docs(&s) == Multiset::<DocView>::empty() && committed_docs(
                &s,
            ) == Multiset::<DocView>::empty(),
    {
        let mut b = Schema::builder();
        let title_field = b.add_text_field("title", TEXT | STORED);
        let composer_field = b.add_text_field("composer", TEXT | STORED);
        let path_field = b.add_text_field("path", STORED);
        let index = Index::create_in_ram(b.build());
        let writer = index.writer(20_000_000).map_err(|e| e.to_string())?;
        let reader = index.reader_builder().reload_policy(ReloadPolicy::OnCommitWithDelay)
            .try_into().map_err(|e: tantivy::TantivyError| e.to_string())?;
        Ok(SearchIndex { index, writer, reader, title_field, composer_field, path_field })
    }

    /// Relies on tantivy's `IndexWriter::add_document`: the document joins
    /// the pending set.
    #[verifier::external_body]
    fn add_doc_titled(&mut self, title: &str, path: &str) -> (r: Result<(), String>)
        ensures
            r is Ok ==> pending_docs(final(self)) == pending_docs(old(self)).insert(
                (title@, None::<Seq<char>>, path@),
            ) && committed_docs(final(self)) == committed_docs(old(self)),
    {
        let mut doc = TantivyDocument::new();
        doc.add_text(self.title_field, title);
        doc.add_text(self.path_field, path);
        self.writer.add_document(doc).map(|_| ()).map_err(|e| e.to_string())
    }

    /// Relies on tantivy's `IndexWriter::add_document`: the document joins
    /// the pending set.
    #[verifier::external_body]
    fn add_doc_full(&mut self, title: &str, composer: &str, path: &str) -> (r: Result<(), String>)
        ensures
            r is Ok ==> pending_docs(final(self)) == pending_docs(old(self)).insert(
                (title@, Some(composer@), path@),
            ) && committed_docs(final(self)) == committed_docs(old(self)),
    {
        let mut doc = TantivyDocument::new();
        doc.add_text(self.title_field, title);
        doc.add_text(self.composer_field, composer);
        doc.add_text(self.path_field, path);
        self.writer.add_document(doc).map(|_| ()).map_err(|e| e.to_string())
    }

    /// Relies on tantivy's `IndexWriter::commit` and `IndexReader::reload`:
    /// the pending documents become visible to searches, on top of what was
    /// already committed.
    #[verifier::external_body]
    fn commit(&mut self) -> (r: Result<(), String>)
        ensures
            r is Ok ==> pending_docs(final(self)) == Multiset::<DocView>::empty()
                && committed_docs(final(self)) == committed_docs(old(self)).add(
                pending_docs(old(self)),
            ),
    {
        self.writer.commit().map_err(|e| e.to_string())?;
        self.reader.reload().map_err(|e| e.to_string())?;
        Ok(())
    }

    /// Relies on tantivy's `TantivyDocument::get_first` and the value
    /// accessor `as_str`: the stored text of the title, composer and path
    /// fields of one retrieved document.
    #[verifier::external_body]
    fn doc_entry(&self, d: &TantivyDocument) -> (Option<String>, Option<String>, String) {
        let t = |f: Field| d.get_first(f).and_then(|v| v.as_str()).map(|s| s.to_owned());
        (t(self.title_field), t(self.composer_field), t(self.path_field).unwrap_or_default())
    }

    /// Relies on tantivy's `QueryParser::parse_query`, `Searcher::search`
    /// with a `TopDocs` collector, and `Searcher::doc`: at most `limit`
    /// results come back, each reading back a document of the committed
    /// index.
    #[verifier::external_body]
    fn search_docs(&self, query: &str, limit: usize) -> (r: Result<
        Vec<(Option<String>, Option<String>, String)>,
        String,
    >)
        requires
            limit > 0,
        ensures
            r matches Ok(v) ==> v@.len() <= limit && forall|i: int|
                0 <= i < v@.len() ==> spec_entry_indexed(committed_docs(self), #[trigger] v@[i]),
    {
        let s = self.reader.searcher();
        let mut p = QueryParser::for_index(&self.index, vec![self.title_field, self.composer_field]);
        p.set_conjunction_by_default();
        let q = p.parse_query(query).map_err(|e| e.to_string())?;
        let top = s.search(&q, &TopDocs::with_limit(limit).order_by_score()).map_err(|e| e.to_string())?;
        let docs: Result<Vec<TantivyDocument>, _> = top.into_iter().map(|(_, a)| s.doc(a)).collect();
        Ok(docs.map_err(|e| e.to_string())?.iter().map(|d| self.doc_entry(d)).collect())
    }
}

/// Whether `name` is one of the known format names.
pub open spec fn spec_contains_name(formats: Seq<Seq<char>>, name: Seq<char>) -> bool {
    exists|i: int| 0 <= i < formats.len() && formats[i] == name
}

/// What the Modland path heuristic reads from a path, given the known format
/// names: `(title, game, composer)`.  A path shaped
/// `<format>/<composer>/<file>` names the composer; one shaped
/// `<format>/<composer>/<game>/<file>` also names the game, and a
/// `coop-<x>` composer segment turns into `"<composer> + <x>"`.
pub open spec fn spec_modland(formats: Seq<Seq<char>>, path: Seq<char>) -> Option<
    (Seq<char>, Seq<char>, Seq<char>),
> {
    let segs = spec_rev_segments(path);
    let title = spec_file_stem(path);
    if segs.len() >= 3 && spec_contains_name(formats, segs[2]) {
        Some((title, Seq::empty(), segs[1]))
    } else if segs.len() >= 4 && spec_contains_name(formats, segs[3]) {
        if spec_starts_with(segs[1], "coop-"@) {
            Some((title, Seq::empty(), segs[2] + " + "@ + segs[1].skip(5)))
        } else {
            Some((title, segs[1], segs[2]))
        }
    } else {
        None
    }
}

/// The title a song is indexed under: the identified title (with the game
/// name around it when both are known), the game alone, or the file stem.
pub open spec fn spec_index_title(info: SongInfoView, path: Seq<char>) -> Seq<char> {
    if info.title.len() > 0 {
        if info.game.len() > 0 {
            info.game + " ("@ + info.title + ")"@
        } else {
            info.title
        }
    } else if info.game.len() > 0 {
        info.game
    } else {
        spec_file_stem(path)
    }
}

/// Whether some committed document reads back as this result.
pub open spec fn spec_result_indexed(committed: Multiset<DocView>, fv: FileInfoView) -> bool {
    exists|d: DocView| #[trigger] committed.contains(d) && spec_result_entry(fv, d)
}

/// Whether a search result reads back an indexed document.
pub open spec fn spec_result_entry(fv: FileInfoView, d: DocView) -> bool {
    &&& fv.path == d.2
    &&& (spec_lookup(fv.meta, "title"@) matches Some(v) ==> v matches ValueView::Text(t) && d.0
        == t)
    &&& (spec_lookup(fv.meta, "composer"@) matches Some(v) ==> v matches ValueView::Text(c) && d.1
        == Some(c))
}

/// The song index: the search engine, the current result list, the warm
/// list that seeds playback before indexing finishes, and the path
/// heuristic's format names.
pub struct Indexer {
    search_index: SearchIndex,
    result: Vec<FileInfo>,
    song_list: VecDeque<FileInfo>,
    count: usize,
    working: bool,
    modland_formats: Vec<String>,
}

impl Indexer {
    /// Documents added but not yet committed.
    pub closed spec fn docs_pending(&self) -> Multiset<DocView> {
        pending_docs(&self.search_index)
    }

    /// Documents a search can find.
    pub closed spec fn docs_committed(&self) -> Multiset<DocView> {
        committed_docs(&self.search_index)
    }

    /// The current search result.
    pub closed spec fn results(&self) -> Seq<FileInfoView> {
        crate::song::songs_view(self.result@)
    }

    /// The warm list of first-seen songs.
    pub closed spec fn warm_list(&self) -> Seq<FileInfoView> {
        crate::song::songs_view(self.song_list@)
    }

    /// How many songs have been added.
    pub closed spec fn spec_count(&self) -> int {
        self.count as int
    }

    /// Whether the background walker has reported itself busy.
    pub closed spec fn is_working(&self) -> bool {
        self.working
    }

    /// The format names the Modland heuristic knows.
    pub closed spec fn formats(&self) -> Seq<Seq<char>> {
        self.modland_formats.deep_view()
    }

    /// A fresh, empty index.
    pub fn new() -> (r: Result<Indexer, MusicError>)
        ensures
            r matches Ok(ix) ==> {
                &&& ix.docs_pending() == Multiset::<DocView>::empty()
                &&& ix.docs_committed() == Multiset::<DocView>::empty()
                &&& ix.results().len() == 0
                &&& ix.warm_list().len() == 0
                &&& ix.spec_count() == 0
                &&& ix.formats() == spec_modland_formats()
                &&& !ix.is_working()
            },
    {
        let search_index = match SearchIndex::new() {
            Ok(s) => s,
            Err(e) => {
                return Err(MusicError { msg: e });
            },
        };
        let ix = Indexer {
            search_index,
            result: Vec::new(),
            song_list: VecDeque::new(),
            count: 0,
            working: false,
            modland_formats: modland_format_names(),
        };
        proof {
            assert(ix.results() =~= Seq::<FileInfoView>::empty());
            assert(ix.song_list@ =~= Seq::<FileInfo>::empty());
            assert(ix.warm_list() =~= Seq::<FileInfoView>::empty());
        }
        Ok(ix)
    }

    /// Whether the heuristic knows this format name.
    fn contains_format(&self, name: &str) -> (r: bool)
        ensures
            r == spec_contains_name(self.formats(), name@),
    {
        let n = self.modland_formats.len();
        let mut i: usize = 0;
        while i < n
            invariant
                n == self.modland_formats@.len(),
                i <= n,
                forall|j: int| 0 <= j < i ==> self.formats()[j] != name@,
            decreases n - i,
        {
            if str_eq(self.modland_formats[i].as_str(), name) {
                proof {
                    assert(self.formats()[i as int] == name@);
                }
                return true;
            }
            i += 1;
        }
        false
    }

    /// Read a song's description out of a Modland-shaped path.
    pub fn parse_modland_info(&self, song_path: &str) -> (r: Option<SongInfo>)
        ensures
            match r {
                Some(info) => spec_modland(self.formats(), song_path@) == Some(
                    (info@.title, info@.game, info@.composer),
                ),
                None => spec_modland(self.formats(), song_path@) is None,
            },
    {
        let segs = rev_segments(song_path);
        let ghost segsv = spec_rev_segments(song_path@);
        proof {
            assert(segs.deep_view().len() == segs@.len());
        }
        let l = segs.len();
        let title = if l > 0 {
            proof {
                assert(segs.deep_view()[0] == segsv[0]);
                assert(crate::text::spec_segments(song_path@).reverse().len()
                    == crate::text::spec_segments(song_path@).len());
                assert(segsv[0] == crate::text::spec_segments(song_path@)[
                    crate::text::spec_segments(song_path@).len() - 1
                ]);
            }
            stem_of_name(segs[0].as_str())
        } else {
            String::new()
        };
        proof {
            assert(title@ == spec_file_stem(song_path@));
        }
        if l >= 3 && self.contains_format(segs[2].as_str()) {
            proof {
                assert(segs.deep_view()[2] == segsv[2]);
                assert(segs.deep_view()[1] == segsv[1]);
            }
            let composer = segs[1].clone();
            return Some(SongInfo { title, game: String::new(), composer });
        }
        if l >= 4 && self.contains_format(segs[3].as_str()) {
            proof {
                assert(segs.deep_view()[3] == segsv[3]);
                assert(segs.deep_view()[2] == segsv[2]);
                assert(segs.deep_view()[1] == segsv[1]);
            }
            if starts_with(segs[1].as_str(), "coop-") {
                proof {
                    reveal_strlit("coop-");
                    assert("coop-"@.len() == 5);
                }
                let coop = skip_chars(segs[1].as_str(), 5);
                let mut composer = segs[2].clone();
                composer.append(" + ");
                composer.append(coop.as_str());
                return Some(SongInfo { title, game: String::new(), composer });
            }
            let game = segs[1].clone();
            let composer = segs[2].clone();
            return Some(SongInfo { title, game, composer });
        }
        None
    }

    /// Index one identified song: a document with the synthesized title, the
    /// composer and the path joins the pending set, the song counter grows,
    /// and the first hundred songs also join the warm list (carrying the raw
    /// title and composer).
    pub fn add_with_info(&mut self, song_path: &str, info: &SongInfo) -> (r: Result<
        (),
        MusicError,
    >)
        ensures
            r is Ok ==> {
                &&& final(self).docs_pending() == old(self).docs_pending().insert(
                    (spec_index_title(info@, song_path@), Some(info@.composer), song_path@),
                )
                &&& final(self).docs_committed() == old(self).docs_committed()
                &&& final(self).spec_count() == old(self).spec_count() + 1
                &&& final(self).results() == old(self).results()
                &&& old(self).warm_list().len() < 100 ==> {
                    &&& final(self).warm_list().len() == old(self).warm_list().len() + 1
                    &&& final(self).warm_list().take(old(self).warm_list().len() as int) == old(
                        self,
                    ).warm_list()
                    &&& final(self).warm_list().last().path == song_path@
                    &&& spec_lookup(final(self).warm_list().last().meta, "title"@) == Some(
                        ValueView::Text(info@.title),
                    )
                    &&& spec_lookup(final(self).warm_list().last().meta, "composer"@) == Some(
                        ValueView::Text(info@.composer),
                    )
                }
                &&& old(self).warm_list().len() >= 100 ==> final(self).warm_list() == old(
                    self,
                ).warm_list()
            },
            old(self).spec_count() == usize::MAX ==> {
                &&& r matches Err(e)
                &&& e.msg@ == "Too many songs"@
            },
            r is Err ==> {
                &&& final(self).results() == old(self).results()
                &&& final(self).warm_list() == old(self).warm_list()
                &&& final(self).spec_count() == old(self).spec_count()
            },
    {
        proof {
            reveal_strlit("title");
            reveal_strlit("composer");
            assert("title"@.len() == 5);
            assert("composer"@.len() == 8);
        }
        if self.count == usize::MAX {
            return Err(MusicError::new("Too many songs"));
        }
        let title = index_title(info, song_path);
        match self.search_index.add_doc_full(title.as_str(), info.composer.as_str(), song_path) {
            Ok(()) => {},
            Err(e) => {
                return Err(MusicError { msg: e });
            },
        }
        self.count = self.count + 1;
        if self.song_list.len() < 100 {
            let mut meta_data = MetaMap::new();
            meta_data.insert("title", Value::Text(info.title.clone()));
            meta_data.insert("composer", Value::Text(info.composer.clone()));
            proof {
                assert(meta_data.spec_get("title"@) == Some(ValueView::Text(info@.title)));
                assert(meta_data.spec_get("composer"@) == Some(ValueView::Text(info@.composer)));
            }
            let file_info = FileInfo { path: song_path.to_owned(), meta_data };
            let ghost fiv = file_info@;
            let ghost old_list = self.song_list@;
            self.song_list.push_back(file_info);
            proof {
                assert(self.warm_list() =~= crate::song::songs_view(old_list).push(fiv));
                assert(self.warm_list().last() == fiv);
                assert(self.warm_list().take(old_list.len() as int) =~= crate::song::songs_view(
                    old_list,
                ));
            }
        }
        Ok(())
    }

    /// Index one song by its path: through the Modland heuristic when the
    /// path matches it, else under the file stem alone, without a composer.
    pub fn add_path(&mut self, song_path: &str) -> (r: Result<(), MusicError>)
        ensures
            r is Ok ==> match spec_modland(old(self).formats(), song_path@) {
                Some(m) => final(self).docs_pending() == old(self).docs_pending().insert(
                    (
                        spec_index_title(
                            (SongInfoView { title: m.0, game: m.1, composer: m.2 }),
                            song_path@,
                        ),
                        Some(m.2),
                        song_path@,
                    ),
                ),
                None => final(self).docs_pending() == old(self).docs_pending().insert(
                    (spec_file_stem(song_path@), None::<Seq<char>>, song_path@),
                ),
            },
            r is Ok ==> {
                &&& final(self).docs_committed() == old(self).docs_committed()
                &&& final(self).spec_count() == old(self).spec_count() + 1
                &&& final(self).results() == old(self).results()
                &&& old(self).warm_list().len() < 100 ==> {
                    &&& final(self).warm_list().len() == old(self).warm_list().len() + 1
                    &&& final(self).warm_list().take(old(self).warm_list().len() as int) == old(
                        self,
                    ).warm_list()
                    &&& final(self).warm_list().last().path == song_path@
                }
                &&& old(self).warm_list().len() >= 100 ==> final(self).warm_list() == old(
                    self,
                ).warm_list()
            },
            r is Ok && spec_modland(old(self).formats(), song_path@) is None && old(
                self,
            ).warm_list().len() < 100 ==> final(self).warm_list().last().meta
                == Seq::<crate::song::MetaEntryView>::empty(),
            old(self).spec_count() == usize::MAX ==> {
                &&& r matches Err(e)
                &&& e.msg@ == "Too many songs"@
            },
            r is Err ==> {
                &&& final(self).results() == old(self).results()
                &&& final(self).warm_list() == old(self).warm_list()
                &&& final(self).spec_count() == old(self).spec_count()
            },
    {
        let parsed = self.parse_modland_info(song_path);
        match parsed {
            Some(info) => self.add_with_info(song_path, &info),
            None => {
                if self.count == usize::MAX {
                    return Err(MusicError::new("Too many songs"));
                }
                let segs = rev_segments(song_path);
                let title = if segs.len() > 0 {
                    proof {
                        assert(segs.deep_view()[0] == spec_rev_segments(song_path@)[0]);
                        assert(crate::text::spec_segments(song_path@).reverse().len()
                            == crate::text::spec_segments(song_path@).len());
                        assert(spec_rev_segments(song_path@)[0] == crate::text::spec_segments(
                            song_path@,
                        )[crate::text::spec_segments(song_path@).len() - 1]);
                    }
                    stem_of_name(segs[0].as_str())
                } else {
                    String::new()
                };
                match self.search_index.add_doc_titled(title.as_str(), song_path) {
                    Ok(()) => {},
                    Err(e) => {
                        return Err(MusicError { msg: e });
                    },
                }
                self.count = self.count + 1;
                if self.song_list.len() < 100 {
                    let file_info = FileInfo {
                        path: song_path.to_owned(),
                        meta_data: MetaMap::new(),
                    };
                    let ghost fiv = file_info@;
                    let ghost old_list = self.song_list@;
                    self.song_list.push_back(file_info);
                    proof {
                        assert(fiv.meta =~= Seq::<crate::song::MetaEntryView>::empty());
                        assert(self.warm_list() =~= crate::song::songs_view(old_list).push(fiv));
                        assert(self.warm_list().last() == fiv);
                        assert(self.warm_list().take(old_list.len() as int)
                            =~= crate::song::songs_view(old_list));
                    }
                }
                Ok(())
            },
        }
    }

    /// Make everything added so far visible to searches.
    pub fn commit(&mut self) -> (r: Result<(), MusicError>)
        ensures
            r is Ok ==> {
                &&& final(self).docs_committed() == old(self).docs_committed().add(
                    old(self).docs_pending(),
                )
                &&& final(self).docs_pending() == Multiset::<DocView>::empty()
                &&& final(self).results() == old(self).results()
                &&& final(self).warm_list() == old(self).warm_list()
                &&& final(self).spec_count() == old(self).spec_count()
            },
            r is Err ==> {
                &&& final(self).results() == old(self).results()
                &&& final(self).warm_list() == old(self).warm_list()
                &&& final(self).spec_count() == old(self).spec_count()
            },
    {
        match self.search_index.commit() {
            Ok(()) => Ok(()),
            Err(e) => Err(MusicError { msg: e }),
        }
    }

    /// Run a conjunctive query over titles and composers and keep the top
    /// results: at most `RESULT_LIMIT` of them, each reading back a
    /// committed document.
    pub fn search(&mut self, query: &str) -> (r: Result<(), MusicError>)
        ensures
            r is Ok ==> {
                &&& final(self).results().len() <= RESULT_LIMIT
                &&& forall|i: int|
                    0 <= i < final(self).results().len() ==> spec_result_indexed(
                        final(self).docs_committed(),
                        #[trigger] final(self).results()[i],
                    )
                &&& final(self).docs_committed() == old(self).docs_committed()
                &&& final(self).docs_pending() == old(self).docs_pending()
                &&& final(self).warm_list() == old(self).warm_list()
                &&& final(self).spec_count() == old(self).spec_count()
            },
            r is Err ==> {
                &&& final(self).results() == old(self).results()
                &&& final(self).docs_committed() == old(self).docs_committed()
                &&& final(self).docs_pending() == old(self).docs_pending()
                &&& final(self).warm_list() == old(self).warm_list()
                &&& final(self).spec_count() == old(self).spec_count()
            },
    {
        proof {
            reveal_strlit("title");
            reveal_strlit("composer");
            assert("title"@.len() == 5);
            assert("composer"@.len() == 8);
        }
        let entries = match self.search_index.search_docs(query, RESULT_LIMIT) {
            Ok(v) => v,
            Err(e) => {
                return Err(MusicError { msg: e });
            },
        };
        let ghost entries_g = entries@;
        proof {
            assert(entries_g.len() <= RESULT_LIMIT);
        }
        let mut result: Vec<FileInfo> = Vec::new();
        let n = entries.len();
        let mut i: usize = 0;
        while i < n
            invariant
                n == entries@.len(),
                entries@ == entries_g,
                i <= n,
                result@.len() == i,
                forall|k: int|
                    0 <= k < entries_g.len() ==> spec_entry_indexed(
                        committed_docs(&self.search_index),
                        #[trigger] entries_g[k],
                    ),
                forall|j: int|
                    0 <= j < i ==> spec_result_indexed(
                        committed_docs(&self.search_index),
                        #[trigger] crate::song::songs_view(result@)[j],
                    ),
            decreases n - i,
        {
            proof {
                reveal_strlit("title");
                reveal_strlit("composer");
                assert("title"@.len() == 5);
                assert("composer"@.len() == 8);
            }
            let mut meta_data = MetaMap::new();
            let entry = &entries[i];
            let ghost entryv = entries_g[i as int];
            proof {
                assert(*entry == entryv);
            }
            let title = match &entry.0 {
                Some(t) => Some(t.clone()),
                None => None,
            };
            let composer = match &entry.1 {
                Some(c) => Some(c.clone()),
                None => None,
            };
            proof {
                assert(title is Some <==> entryv.0 is Some);
                assert(title matches Some(t) ==> entryv.0 matches Some(t0) && t@ == t0@);
                assert(composer is Some <==> entryv.1 is Some);
                assert(composer matches Some(c) ==> entryv.1 matches Some(c0) && c@ == c0@);
            }
            let ghost title_g = title;
            let ghost composer_g = composer;
            let path = entry.2.clone();
            match title {
                Some(t) => meta_data.insert("title", Value::Text(t)),
                None => {},
            }
            match composer {
                Some(c) => meta_data.insert("composer", Value::Text(c)),
                None => {},
            }
            proof {
                if title_g is Some {
                    assert(meta_data.spec_get("title"@) == Some(
                        ValueView::Text(title_g->Some_0@),
                    ));
                } else {
                    assert(meta_data.spec_get("title"@) is None);
                }
                if composer_g is Some {
                    assert(meta_data.spec_get("composer"@) == Some(
                        ValueView::Text(composer_g->Some_0@),
                    ));
                } else {
                    assert(meta_data.spec_get("composer"@) is None);
                }
            }
            let fi = FileInfo { path, meta_data };
            let ghost fiv = fi@;
            let ghost old_result = result@;
            result.push(fi);
            proof {
                assert(spec_entry_indexed(committed_docs(&self.search_index), entryv));
                let d = choose|d: DocView|
                    #[trigger] committed_docs(&self.search_index).contains(d)
                        && spec_entry_matches(entryv, d);
                assert(committed_docs(&self.search_index).contains(d));
                assert(spec_entry_matches(entryv, d));
                assert(fiv.path == d.2);
                assert(spec_result_entry(fiv, d));
                assert(committed_docs(&self.search_index).contains(d) && spec_result_entry(
                    fiv,
                    d,
                ));
                assert(spec_result_indexed(committed_docs(&self.search_index), fiv));
                assert(crate::song::songs_view(result@) =~= crate::song::songs_view(
                    old_result,
                ).push(fiv));
                assert forall|j: int| 0 <= j < i + 1 implies spec_result_indexed(
                    committed_docs(&self.search_index),
                    #[trigger] crate::song::songs_view(result@)[j],
                ) by {
                    if j < i {
                        assert(crate::song::songs_view(result@)[j] == crate::song::songs_view(
                            old_result,
                        )[j]);
                    } else {
                        assert(crate::song::songs_view(result@)[j] == fiv);
                    }
                }
            }
            i += 1;
        }
        self.result = result;
        Ok(())
    }

    /// Pop the next warm-list song, if any.
    pub fn next(&mut self) -> (r: Option<FileInfo>)
        ensures
            old(self).warm_list().len() == 0 ==> r is None && final(self).warm_list() == old(
                self,
            ).warm_list(),
            old(self).warm_list().len() > 0 ==> {
                &&& r matches Some(fi)
                &&& fi@ == old(self).warm_list()[0]
                &&& final(self).warm_list() =~= old(self).warm_list().skip(1)
            },
            final(self).results() == old(self).results(),
            final(self).docs_committed() == old(self).docs_committed(),
            final(self).docs_pending() == old(self).docs_pending(),
    {
        if self.song_list.len() == 0 {
            return None;
        }
        let r = self.song_list.pop_front();
        proof {
            assert(crate::song::songs_view(self.song_list@) =~= crate::song::songs_view(
                old(self).song_list@,
            ).skip(1));
        }
        r
    }

    /// How many results the last search produced.
    pub fn result_len(&self) -> (r: usize)
        ensures
            r == self.results().len(),
    {
        self.result.len()
    }

    /// The result at `index`, if any.
    pub fn get_song(&self, index: usize) -> (r: Option<FileInfo>)
        ensures
            match r {
                Some(fi) => index < self.results().len() && fi@ == self.results()[index as int],
                None => index >= self.results().len(),
            },
    {
        if index < self.result.len() {
            Some(self.result[index].clone())
        } else {
            None
        }
    }

    /// Where a requested bound lands in the current result: clamped to its
    /// length.
    pub open spec fn spec_clamped_bound(&self, at: int) -> int {
        if at <= self.results().len() {
            at
        } else {
            self.results().len() as int
        }
    }

    /// A copy of the result rows from `start` to `stop`, both bounds clamped
    /// to the result's length; empty when the clamped range is.
    pub fn get_songs(&self, start: usize, stop: usize) -> (r: Vec<FileInfo>)
        ensures
            ({
                let lo = self.spec_clamped_bound(start as int);
                let hi = self.spec_clamped_bound(stop as int);
                &&& r@.len() == if hi > lo {
                    hi - lo
                } else {
                    0
                }
                &&& forall|j: int|
                    0 <= j < r@.len() ==> (#[trigger] r@[j])@ == self.results()[lo + j]
            }),
    {
        let len = self.result.len();
        let lo = if start <= len {
            start
        } else {
            len
        };
        let hi = if stop <= len {
            stop
        } else {
            len
        };
        let mut out: Vec<FileInfo> = Vec::new();
        let mut i: usize = lo;
        while i < hi
            invariant
                len == self.result@.len(),
                lo <= len,
                hi <= len,
                lo <= i,
                i <= hi || i == lo,
                out@.len() == i - lo,
                forall|j: int|
                    0 <= j < out@.len() ==> (#[trigger] out@[j])@ == self.results()[lo + j],
            decreases hi - i,
        {
            out.push(self.result[i].clone());
            i += 1;
        }
        out
    }

    /// How many songs have been added to the index.
    pub fn index_count(&self) -> (r: usize)
        ensures
            r == self.spec_count(),
    {
        self.count
    }

    /// Whether the background walker reported itself busy.
    pub fn working(&self) -> (r: bool)
        ensures
            r == self.is_working(),
    {
        self.working
    }

    /// Record whether the background walker is busy.
    pub fn set_working(&mut self, busy: bool)
        ensures
            final(self).is_working() == busy,
            final(self).formats() == old(self).formats(),
            final(self).results() == old(self).results(),
            final(self).docs_committed() == old(self).docs_committed(),
            final(self).docs_pending() == old(self).docs_pending(),
            final(self).warm_list() == old(self).warm_list(),
            final(self).spec_count() == old(self).spec_count(),
    {
        self.working = busy;
    }
}

/// Build the title one identified song is indexed under.
fn index_title(info: &SongInfo, song_path: &str) -> (r: String)
    ensures
        r@ == spec_index_title(info@, song_path@),
{
    if info.title.unicode_len() > 0 {
        if info.game.unicode_len() > 0 {
            let mut out = info.game.clone();
            out.append(" (");
            out.append(info.title.as_str());
            out.append(")");
            proof {
                assert(out@ =~= spec_index_title(info@, song_path@));
            }
            out
        } else {
            info.title.clone()
        }
    } else if info.game.unicode_len() > 0 {
        info.game.clone()
    } else {
        let segs = rev_segments(song_path);
        if segs.len() > 0 {
            proof {
                assert(segs.deep_view()[0] == spec_rev_segments(song_path@)[0]);
                assert(crate::text::spec_segments(song_path@).reverse().len()
                    == crate::text::spec_segments(song_path@).len());
                assert(spec_rev_segments(song_path@)[0] == crate::text::spec_segments(song_path@)[
                    crate::text::spec_segments(song_path@).len() - 1
                ]);
            }
            stem_of_name(segs[0].as_str())
        } else {
            proof {
                assert(segs.deep_view().len() == 0);
                assert(crate::text::spec_segments(song_path@).reverse().len()
                    == crate::text::spec_segments(song_path@).len());
                assert(crate::text::spec_segments(song_path@).len() == 0);
            }
            String::new()
        }
    }
}

/// The format directory names of the Modland collection that the path
/// heuristic recognises, as the index holds them.  The list is data, not
/// logic: it mirrors the collection's top-level layout.
pub open spec fn spec_modland_formats() -> Seq<Seq<char>> {
    seq![
        "AHX"@,
        "Actionamics"@,
        "Art Of Noise"@,
        "Ben Daglish"@,
        "Composer 669"@,
        "Custom Made"@,
        "David Whittaker"@,
        "Delta Music"@,
        "Delta Music 2"@,
        "Digibooster"@,
        "Digibooster Pro"@,
        "Digital Mugician"@,
        "Digital Sound Studio"@,
        "Dynamic Synthesizer"@,
        "Fast Tracker"@,
        "Fasttracker"@,
        "Fasttracker 2"@,
        "Fred Editor"@,
        "Future Composer 1.3"@,
        "Future Composer 1.4"@,
        "Game Music Creator"@,
        "Hippel"@,
        "Hippel 7V"@,
        "Hippel COSO"@,
        "Hively Tracker"@,
        "Images Music System"@,
        "Impulsetracker"@,
        "In Stereo"@,
        "Jam Cracker"@,
        "Jason Page"@,
        "Jeroen Tel"@,
        "Mark Cooksey"@,
        "Maniacs Of Noise"@,
        "Med Packer"@,
        "Mike Davies"@,
        "Multitracker"@,
        "Music Assembler"@,
        "Musicline Editor"@,
        "Nintendo SPC"@,
        "Octalyser"@,
        "OctaMED MMD0"@,
        "OctaMED MMD1"@,
        "OctaMED MMD2"@,
        "OctaMED MMD3"@,
        "OctaMED MMDC"@,
        "Oktalyzer"@,
        "Paul Robotham"@,
        "Protracker"@,
        "Pumatracker"@,
        "Quartet PSG"@,
        "Quartet ST"@,
        "Richard Joseph"@,
        "Rob Hubbard"@,
        "SNDH"@,
        "Screamtracker 2"@,
        "Screamtracker 3"@,
        "SidMon 1"@,
        "SidMon 2"@,
        "Sonic Arranger"@,
        "Soundtracker"@,
        "Soundtracker 2.6"@,
        "Soundtracker Pro II"@,
        "Startrekker AM"@,
        "Steve Rowlands"@,
        "TFMX"@,
        "The Player 6.0A"@,
        "Ultratracker"@,
        "VGM Music Maker"@,
        "Velvet Studio"@,
        "Wally Beben"@,
        "YM"@,
    ]
}

/// Build the format name list the heuristic works with.
fn modland_format_names() -> (r: Vec<String>)
    ensures
        r.deep_view() == spec_modland_formats(),
{
    let mut out: Vec<String> = Vec::new();
    out.push("AHX".to_owned());
    out.push("Actionamics".to_owned());
    out.push("Art Of Noise".to_owned());
    out.push("Ben Daglish".to_owned());
    out.push("Composer 669".to_owned());
    out.push("Custom Made".to_owned());
    out.push("David Whittaker".to_owned());
    out.push("Delta Music".to_owned());
    out.push("Delta Music 2".to_owned());
    out.push("Digibooster".to_owned());
    out.push("Digibooster Pro".to_owned());
    out.push("Digital Mugician".to_owned());
    out.push("Digital Sound Studio".to_owned());
    out.push("Dynamic Synthesizer".to_owned());
    out.push("Fast Tracker".to_owned());
    out.push("Fasttracker".to_owned());
    out.push("Fasttracker 2".to_owned());
    out.push("Fred Editor".to_owned());
    out.push("Future Composer 1.3".to_owned());
    out.push("Future Composer 1.4".to_owned());
    out.push("Game Music Creator".to_owned());
    out.push("Hippel".to_owned());
    out.push("Hippel 7V".to_owned());
    out.push("Hippel COSO".to_owned());
    out.push("Hively Tracker".to_owned());
    out.push("Images Music System".to_owned());
    out.push("Impulsetracker".to_owned());
    out.push("In Stereo".to_owned());
    out.push("Jam Cracker".to_owned());
    out.push("Jason Page".to_owned());
    out.push("Jeroen Tel".to_owned());
    out.push("Mark Cooksey".to_owned());
    out.push("Maniacs Of Noise".to_owned());
    out.push("Med Packer".to_owned());
    out.push("Mike Davies".to_owned());
    out.push("Multitracker".to_owned());
    out.push("Music Assembler".to_owned());
    out.push("Musicline Editor".to_owned());
    out.push("Nintendo SPC".to_owned());
    out.push("Octalyser".to_owned());
    out.push("OctaMED MMD0".to_owned());
    out.push("OctaMED MMD1".to_owned());
    out.push("OctaMED MMD2".to_owned());
    out.push("OctaMED MMD3".to_owned());
    out.push("OctaMED MMDC".to_owned());
    out.push("Oktalyzer".to_owned());
    out.push("Paul Robotham".to_owned());
    out.push("Protracker".to_owned());
    out.push("Pumatracker".to_owned());
    out.push("Quartet PSG".to_owned());
    out.push("Quartet ST".to_owned());
    out.push("Richard Joseph".to_owned());
    out.push("Rob Hubbard".to_owned());
    out.push("SNDH".to_owned());
    out.push("Screamtracker 2".to_owned());
    out.push("Screamtracker 3".to_owned());
    out.push("SidMon 1".to_owned());
    out.push("SidMon 2".to_owned());
    out.push("Sonic Arranger".to_owned());
    out.push("Soundtracker".to_owned());
    out.push("Soundtracker 2.6".to_owned());
    out.push("Soundtracker Pro II".to_owned());
    out.push("Startrekker AM".to_owned());
    out.push("Steve Rowlands".to_owned());
    out.push("TFMX".to_owned());
    out.push("The Player 6.0A".to_owned());
    out.push("Ultratracker".to_owned());
    out.push("VGM Music Maker".to_owned());
    out.push("Velvet Studio".to_owned());
    out.push("Wally Beben".to_owned());
    out.push("YM".to_owned());
    proof {
        assert(out.deep_view() =~= spec_modland_formats());
    }
    out
}

/// Convert bytes up to the first NUL into text, one character per byte.
pub open spec fn spec_latin1_string(s: Seq<u8>) -> Seq<char> {
    s.take(spec_first_nul(s)).map_values(|b: u8| b as char)
}

/// Index of the first NUL byte, or the length when there is none.
pub open spec fn spec_first_nul(s: Seq<u8>) -> int
    decreases s.len(),
{
    if s.len() == 0 {
        0
    } else if s[0] == 0 {
        0
    } else {
        1 + spec_first_nul(s.skip(1))
    }
}

proof fn lemma_first_nul_range(s: Seq<u8>)
    ensures
        0 <= spec_first_nul(s) <= s.len(),
        forall|j: int| 0 <= j < spec_first_nul(s) ==> s[j] != 0,
        spec_first_nul(s) < s.len() ==> s[spec_first_nul(s)] == 0,
    decreases s.len(),
{
    if s.len() > 0 && s[0] != 0 {
        lemma_first_nul_range(s.skip(1));
        assert forall|j: int| 0 <= j < spec_first_nul(s) implies s[j] != 0 by {
            if j >= 1 {
                assert(s[j] == s.skip(1)[j - 1]);
            }
        }
        if spec_first_nul(s) < s.len() {
            assert(s[spec_first_nul(s)] == s.skip(1)[spec_first_nul(s) - 1]);
        }
    }
}

/// Convert 8-bit text to a string: the bytes before the first NUL, each
/// taken as one character.
pub fn slice_to_string(slice: &[u8]) -> (r: String)
    ensures
        r@ == spec_latin1_string(slice@),
{
    proof {
        lemma_first_nul_range(slice@);
    }
    let len = slice.len();
    let mut out = String::new();
    let mut i: usize = 0;
    while i < len
        invariant
            len == slice@.len(),
            i <= len,
            0 <= spec_first_nul(slice@) <= len,
            forall|j: int| 0 <= j < spec_first_nul(slice@) ==> slice@[j] != 0,
            spec_first_nul(slice@) < len ==> slice@[spec_first_nul(slice@)] == 0,
            i <= spec_first_nul(slice@),
            forall|j: int| 0 <= j < i ==> slice@[j] != 0,
            out@ =~= slice@.take(i as int).map_values(|b: u8| b as char),
        decreases len - i,
    {
        let b = slice[i];
        if b == 0 {
            proof {
                assert(spec_first_nul(slice@) == i);
                assert(out@ =~= spec_latin1_string(slice@));
            }
            return out;
        }
        let ghost old_out = out@;
        crate::text::string_push(&mut out, b as char);
        i += 1;
        proof {
            assert(spec_first_nul(slice@) >= i) by {
                if spec_first_nul(slice@) < i {
                    assert(slice@[spec_first_nul(slice@)] == 0);
                }
            }
            assert(out@ =~= slice@.take(i as int).map_values(|b: u8| b as char));
        }
    }
    proof {
        assert(spec_first_nul(slice@) == len);
        assert(out@ =~= spec_latin1_string(slice@));
    }
    out
}

/// The title and composer stored in a SID file's header, when the buffer
/// holds at least the header's text fields.
pub open spec fn spec_sid_header(buf: Seq<u8>) -> Option<(Seq<char>, Seq<char>)> {
    if buf.len() >= 0x56 {
        Some(
            (
                spec_latin1_string(buf.subrange(0x16, 0x36)),
                spec_latin1_string(buf.subrange(0x36, 0x56)),
            ),
        )
    } else {
        None
    }
}

/// Read a SID header's title and composer fields (at `0x16..0x36` and
/// `0x36..0x56`, NUL-padded 8-bit text).  The application reads the file;
/// this parses the bytes.
pub fn parse_sid_header(buf: &[u8]) -> (r: Option<SongInfo>)
    ensures
        match r {
            Some(info) => spec_sid_header(buf@) matches Some(h) && info@.title == h.0
                && info@.composer == h.1 && info@.game == Seq::<char>::empty(),
            None => spec_sid_header(buf@) is None,
        },
{
    if buf.len() < 0x56 {
        return None;
    }
    let mut title_bytes: Vec<u8> = Vec::new();
    let mut i: usize = 0x16;
    while i < 0x36
        invariant
            buf@.len() >= 0x56,
            0x16 <= i <= 0x36,
            title_bytes@ =~= buf@.subrange(0x16, i as int),
        decreases 0x36 - i,
    {
        title_bytes.push(buf[i]);
        i += 1;
    }
    let mut composer_bytes: Vec<u8> = Vec::new();
    let mut j: usize = 0x36;
    while j < 0x56
        invariant
            buf@.len() >= 0x56,
            0x36 <= j <= 0x56,
            composer_bytes@ =~= buf@.subrange(0x36, j as int),
        decreases 0x56 - j,
    {
        composer_bytes.push(buf[j]);
        j += 1;
    }
    let title = slice_to_string(title_bytes.as_slice());
    let composer = slice_to_string(composer_bytes.as_slice());
    Some(SongInfo { title, game: String::new(), composer })
}

/// Whether `ext` names one of the file kinds the walker never indexes,
/// compared without regard to ASCII case.
pub open spec fn spec_blacklisted_ext(ext: Seq<char>) -> bool {
    ||| spec_eq_ci(ext, "d71"@)
    ||| spec_eq_ci(ext, "d81"@)
    ||| spec_eq_ci(ext, "dfi"@)
    ||| spec_eq_ci(ext, "d64"@)
    ||| spec_eq_ci(ext, "1st"@)
    ||| spec_eq_ci(ext, "exe"@)
    ||| spec_eq_ci(ext, "hvs"@)
    ||| spec_eq_ci(ext, "txt"@)
    ||| spec_eq_ci(ext, "faq"@)
    ||| spec_eq_ci(ext, "md5"@)
}

/// Whether the walker skips this path for its extension alone.
pub fn non_song_extension(path: &str) -> (r: bool)
    ensures
        r == match spec_extension(path@) {
            Some(e) => spec_blacklisted_ext(e),
            None => false,
        },
{
    let segs = rev_segments(path);
    if segs.len() == 0 {
        proof {
            assert(spec_rev_segments(path@).len() == 0);
            assert(crate::text::spec_segments(path@).len() == 0);
        }
        return false;
    }
    proof {
        assert(segs.deep_view().len() == segs@.len());
        assert(spec_rev_segments(path@).len() == segs@.len());
        assert(crate::text::spec_segments(path@).reverse().len() == crate::text::spec_segments(
            path@,
        ).len());
        assert(segs.deep_view()[0] == spec_rev_segments(path@)[0]);
        assert(crate::text::spec_segments(path@).len() > 0);
        assert(spec_rev_segments(path@)[0] == crate::text::spec_segments(path@)[
            crate::text::spec_segments(path@).len() - 1
        ]);
    }
    let ext = crate::text::ext_of_name(segs[0].as_str());
    match ext {
        None => false,
        Some(e) => {
            let x = e.as_str();
            str_eq_ci(x, "d71") || str_eq_ci(x, "d81") || str_eq_ci(x, "dfi") || str_eq_ci(
                x,
                "d64",
            ) || str_eq_ci(x, "1st") || str_eq_ci(x, "exe") || str_eq_ci(x, "hvs") || str_eq_ci(
                x,
                "txt",
            ) || str_eq_ci(x, "faq") || str_eq_ci(x, "md5")
        },
    }
}

} // verus!
