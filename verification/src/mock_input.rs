//! Scripted answers for the terminal interface: each question takes the
//! next answer queued for its kind, so a whole dialogue can be run without
//! a terminal.
use vstd::prelude::*;
use std::collections::VecDeque;
use crate::errors::EnkryptitError;
use crate::frontend::TuiInput;

verus! {

/// The texts of a list of strings.
pub open spec fn texts_of(v: Seq<String>) -> Seq<Seq<char>> {
    v.map_values(|s: String| s@)
}

/// The texts of a list of string slices.
pub open spec fn slice_texts(v: Seq<&str>) -> Seq<Seq<char>> {
    v.map_values(|s: &str| s@)
}

/// Answers queued for each kind of question, taken first in, first out.
pub struct MockTuiInput {
    selects: VecDeque<String>,
    texts: VecDeque<String>,
    counters: VecDeque<u8>,
    file_picks: VecDeque<Vec<String>>,
    folder_picks: VecDeque<Vec<String>>,
}

impl MockTuiInput {
    /// Menu choices still queued.
    pub closed spec fn queued_selects(&self) -> Seq<Seq<char>> {
        texts_of(self.selects@)
    }

    /// Text answers still queued.
    pub closed spec fn queued_texts(&self) -> Seq<Seq<char>> {
        texts_of(self.texts@)
    }

    /// Thread counts still queued.
    pub closed spec fn queued_counters(&self) -> Seq<u8> {
        self.counters@
    }

    /// File picks still queued.
    pub closed spec fn queued_files(&self) -> Seq<Seq<Seq<char>>> {
        self.file_picks@.map_values(|v: Vec<String>| texts_of(v@))
    }

    /// Folder picks still queued.
    pub closed spec fn queued_folders(&self) -> Seq<Seq<Seq<char>>> {
        self.folder_picks@.map_values(|v: Vec<String>| texts_of(v@))
    }

    /// No answer queued.
    pub fn new() -> (res: MockTuiInput)
        ensures
            res.queued_selects() == Seq::<Seq<char>>::empty(),
            res.queued_texts() == Seq::<Seq<char>>::empty(),
            res.queued_counters() == Seq::<u8>::empty(),
            res.queued_files() == Seq::<Seq<Seq<char>>>::empty(),
            res.queued_folders() == Seq::<Seq<Seq<char>>>::empty(),
    {
        let res = MockTuiInput {
            selects: VecDeque::new(),
            texts: VecDeque::new(),
            counters: VecDeque::new(),
            file_picks: VecDeque::new(),
            folder_picks: VecDeque::new(),
        };
        assert(res.queued_selects() =~= Seq::<Seq<char>>::empty());
        assert(res.queued_texts() =~= Seq::<Seq<char>>::empty());
        assert(res.queued_files() =~= Seq::<Seq<Seq<char>>>::empty());
        assert(res.queued_folders() =~= Seq::<Seq<Seq<char>>>::empty());
        res
    }

    /// Queues the label chosen at the next menu.
    pub fn with_select(self, choice: &str) -> (res: MockTuiInput)
        ensures
            res.queued_selects() == self.queued_selects().push(choice@),
            res.queued_texts() == self.queued_texts(),
            res.queued_counters() == self.queued_counters(),
            res.queued_files() == self.queued_files(),
            res.queued_folders() == self.queued_folders(),
    {
        let mut s = self;
        s.selects.push_back(String::from_str(choice));
        assert(s.queued_selects() =~= self.queued_selects().push(choice@));
        s
    }

    /// Queues the answer to the next text prompt.
    pub fn with_text(self, value: &str) -> (res: MockTuiInput)
        ensures
            res.queued_selects() == self.queued_selects(),
            res.queued_texts() == self.queued_texts().push(value@),
            res.queued_counters() == self.queued_counters(),
            res.queued_files() == self.queued_files(),
            res.queued_folders() == self.queued_folders(),
    {
        let mut s = self;
        s.texts.push_back(String::from_str(value));
        assert(s.queued_texts() =~= self.queued_texts().push(value@));
        s
    }

    /// Queues the answer to the next thread-count prompt.
    pub fn with_counter(self, value: u8) -> (res: MockTuiInput)
        ensures
            res.queued_selects() == self.queued_selects(),
            res.queued_texts() == self.queued_texts(),
            res.queued_counters() == self.queued_counters().push(value),
            res.queued_files() == self.queued_files(),
            res.queued_folders() == self.queued_folders(),
    {
        let mut s = self;
        s.counters.push_back(value);
        s
    }

    /// Queues the paths returned by the next file pick.
    pub fn with_files(self, paths: Vec<&str>) -> (res: MockTuiInput)
        ensures
            res.queued_selects() == self.queued_selects(),
            res.queued_texts() == self.queued_texts(),
            res.queued_counters() == self.queued_counters(),
            res.queued_files() == self.queued_files().push(slice_texts(paths@)),
            res.queued_folders() == self.queued_folders(),
    {
        let owned = owned_paths(&paths);
        let mut s = self;
        s.file_picks.push_back(owned);
        assert(s.queued_files() =~= self.queued_files().push(slice_texts(paths@)));
        s
    }

    /// Queues the paths returned by the next folder pick.
    pub fn with_folders(self, paths: Vec<&str>) -> (res: MockTuiInput)
        ensures
            res.queued_selects() == self.queued_selects(),
            res.queued_texts() == self.queued_texts(),
            res.queued_counters() == self.queued_counters(),
            res.queued_files() == self.queued_files(),
            res.queued_folders() == self.queued_folders().push(slice_texts(paths@)),
    {
        let owned = owned_paths(&paths);
        let mut s = self;
        s.folder_picks.push_back(owned);
        assert(s.queued_folders() =~= self.queued_folders().push(slice_texts(paths@)));
        s
    }

    /// Number of menu choices still queued.
    pub fn pending_selects(&self) -> (res: usize)
        ensures
            res == self.queued_selects().len(),
    {
        self.selects.len()
    }

    /// Number of text answers still queued.
    pub fn pending_texts(&self) -> (res: usize)
        ensures
            res == self.queued_texts().len(),
    {
        self.texts.len()
    }

    /// Number of file picks still queued.
    pub fn pending_files(&self) -> (res: usize)
        ensures
            res == self.queued_files().len(),
    {
        self.file_picks.len()
    }

    /// Number of folder picks still queued.
    pub fn pending_folders(&self) -> (res: usize)
        ensures
            res == self.queued_folders().len(),
    {
        self.folder_picks.len()
    }
}

/// Owned copies of a list of paths.
fn owned_paths(paths: &Vec<&str>) -> (res: Vec<String>)
    ensures
        texts_of(res@) == slice_texts(paths@),
{
    let mut out: Vec<String> = Vec::new();
    let mut i: usize = 0;
    while i < paths.len()
        invariant
            i <= paths@.len(),
            out@.len() == i,
            forall|j: int| 0 <= j < i ==> out@[j]@ == paths@[j]@,
        decreases paths@.len() - i,
    {
        out.push(String::from_str(paths[i]));
        i = i + 1;
    }
    assert(texts_of(out@) =~= slice_texts(paths@));
    out
}

impl TuiInput for MockTuiInput {
    /// The next queued menu choice, or `CommandNotFound` when none is left.
    fn select(&mut self, message: &str, choices: &[&str]) -> (res: Result<String, EnkryptitError>)
        ensures
            old(self).queued_selects().len() == 0 ==> res == Err::<String, EnkryptitError>(EnkryptitError::CommandNotFound)
                && final(self).queued_selects() == old(self).queued_selects(),
            old(self).queued_selects().len() > 0 ==> (res matches Ok(s) && s@ == old(self).queued_selects()[0])
                && final(self).queued_selects() == old(self).queued_selects().drop_first(),
            final(self).queued_texts() == old(self).queued_texts(),
            final(self).queued_counters() == old(self).queued_counters(),
            final(self).queued_files() == old(self).queued_files(),
            final(self).queued_folders() == old(self).queued_folders(),
    {
        let ghost before = self.selects@;
        let r = self.selects.pop_front();
        assert(texts_of(self.selects@) =~= if before.len() > 0 { texts_of(before).drop_first() } else { texts_of(before) });
        match r {
            Some(s) => Ok(s),
            None => Err(EnkryptitError::CommandNotFound),
        }
    }

    /// The next queued text answer, or `CommandNotFound` when none is left.
    fn text(&mut self, message: &str, help_message: &str) -> (res: Result<String, EnkryptitError>)
        ensures
            old(self).queued_texts().len() == 0 ==> res == Err::<String, EnkryptitError>(EnkryptitError::CommandNotFound)
                && final(self).queued_texts() == old(self).queued_texts(),
            old(self).queued_texts().len() > 0 ==> (res matches Ok(s) && s@ == old(self).queued_texts()[0])
                && final(self).queued_texts() == old(self).queued_texts().drop_first(),
            final(self).queued_selects() == old(self).queued_selects(),
            final(self).queued_counters() == old(self).queued_counters(),
            final(self).queued_files() == old(self).queued_files(),
            final(self).queued_folders() == old(self).queued_folders(),
    {
        let ghost before = self.texts@;
        let r = self.texts.pop_front();
        assert(texts_of(self.texts@) =~= if before.len() > 0 { texts_of(before).drop_first() } else { texts_of(before) });
        match r {
            Some(s) => Ok(s),
            None => Err(EnkryptitError::CommandNotFound),
        }
    }

    /// The next queued thread count, or `CommandNotFound` when none is
    /// left.
    fn custom_counter(&mut self, message: &str) -> (res: Result<u8, EnkryptitError>)
        ensures
            old(self).queued_counters().len() == 0 ==> res == Err::<u8, EnkryptitError>(EnkryptitError::CommandNotFound)
                && final(self).queued_counters() == old(self).queued_counters(),
            old(self).queued_counters().len() > 0 ==> res == Ok::<u8, EnkryptitError>(old(self).queued_counters()[0])
                && final(self).queued_counters() == old(self).queued_counters().drop_first(),
            final(self).queued_selects() == old(self).queued_selects(),
            final(self).queued_texts() == old(self).queued_texts(),
            final(self).queued_files() == old(self).queued_files(),
            final(self).queued_folders() == old(self).queued_folders(),
    {
        let r = self.counters.pop_front();
        match r {
            Some(c) => Ok(c),
            None => Err(EnkryptitError::CommandNotFound),
        }
    }

    /// The next queued file pick, or no path when none is left.
    fn pick_files(&mut self, title: &str) -> (res: Vec<String>)
        ensures
            old(self).queued_files().len() == 0 ==> res@.len() == 0
                && final(self).queued_files() == old(self).queued_files(),
            old(self).queued_files().len() > 0 ==> texts_of(res@) == old(self).queued_files()[0]
                && final(self).queued_files() == old(self).queued_files().drop_first(),
            final(self).queued_selects() == old(self).queued_selects(),
            final(self).queued_texts() == old(self).queued_texts(),
            final(self).queued_counters() == old(self).queued_counters(),
            final(self).queued_folders() == old(self).queued_folders(),
    {
        let ghost before = self.file_picks@;
        let r = self.file_picks.pop_front();
        assert(self.queued_files() =~= if before.len() > 0 {
            before.map_values(|v: Vec<String>| texts_of(v@)).drop_first()
        } else {
            before.map_values(|v: Vec<String>| texts_of(v@))
        });
        match r {
            Some(v) => v,
            None => Vec::new(),
        }
    }

    /// The next queued folder pick, or no path when none is left.
    fn pick_folders(&mut self, title: &str) -> (res: Vec<String>)
        ensures
            old(self).queued_folders().len() == 0 ==> res@.len() == 0
                && final(self).queued_folders() == old(self).queued_folders(),
            old(self).queued_folders().len() > 0 ==> texts_of(res@) == old(self).queued_folders()[0]
                && final(self).queued_folders() == old(self).queued_folders().drop_first(),
            final(self).queued_selects() == old(self).queued_selects(),
            final(self).queued_texts() == old(self).queued_texts(),
            final(self).queued_counters() == old(self).queued_counters(),
            final(self).queued_files() == old(self).queued_files(),
    {
        let ghost before = self.folder_picks@;
        let r = self.folder_picks.pop_front();
        assert(self.queued_folders() =~= if before.len() > 0 {
            before.map_values(|v: Vec<String>| texts_of(v@)).drop_first()
        } else {
            before.map_values(|v: Vec<String>| texts_of(v@))
        });
        match r {
            Some(v) => v,
            None => Vec::new(),
        }
    }
}

} // verus!
