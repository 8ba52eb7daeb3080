//! Asset bookkeeping: which loads are still pending, how many succeeded or
//! failed, when everything is ready; and the game's speech lines.

use vstd::prelude::*;
use vstd::string::{StrSliceExecFns, StringExecFns};

verus! {

/// Where the loading of one asset stands.
#[derive(Clone, Copy, Debug, PartialEq, Eq, Structural)]
pub enum LoadStatus {
    /// Not loaded yet, or still loading.
    Pending,
    Loaded,
    Failed,
}

/// Whether every asset has finished loading, successfully or not.
#[derive(Clone, Copy, Debug, PartialEq, Eq, Structural)]
pub struct AssetsReady(pub bool);

/// What to report once the last pending asset has finished.
#[derive(Clone, Copy, Debug, PartialEq, Eq, Structural)]
pub enum LoadReport {
    /// Every asset loaded.
    AllLoaded { loaded: usize },
    /// Loading finished, `errors` of `total` assets failed.
    FinishedWithErrors { total: usize, errors: usize },
}

/// The assets being loaded, by handle, with the running counts.
#[derive(Debug)]
pub struct AssetsLoading<H> {
    loaded_count: usize,
    error_count: usize,
    remaining: Vec<H>,
}

/// The handles of `r` whose status in `st` is still pending, in order.
pub open spec fn still_pending<H>(r: Seq<H>, st: Seq<LoadStatus>) -> Seq<H>
    decreases r.len(),
{
    if r.len() == 0 {
        Seq::<H>::empty()
    } else {
        let rest = still_pending(r.drop_last(), st.subrange(0, r.len() - 1));
        if st[r.len() - 1] == LoadStatus::Pending {
            rest.push(r.last())
        } else {
            rest
        }
    }
}

/// How many entries of `st` are `s`.
pub open spec fn count_status(st: Seq<LoadStatus>, s: LoadStatus) -> nat
    decreases st.len(),
{
    if st.len() == 0 {
        0
    } else {
        count_status(st.drop_last(), s) + if st.last() == s { 1nat } else { 0nat }
    }
}

impl<H> AssetsLoading<H> {
    pub closed spec fn loaded(&self) -> nat {
        self.loaded_count as nat
    }

    pub closed spec fn errors(&self) -> nat {
        self.error_count as nat
    }

    pub closed spec fn pending(&self) -> Seq<H> {
        self.remaining@
    }

    /// Every asset ever tracked is counted once, in a total that fits.
    pub open spec fn wf(&self) -> bool {
        self.loaded() + self.errors() + self.pending().len() <= usize::MAX
    }

    pub fn new() -> (l: AssetsLoading<H>)
        ensures
            l.wf(),
            l.loaded() == 0,
            l.errors() == 0,
            l.pending() == Seq::<H>::empty(),
    {
        AssetsLoading { loaded_count: 0, error_count: 0, remaining: Vec::new() }
    }

    pub fn pending_handles(&self) -> (r: &Vec<H>)
        ensures
            r@ == self.pending(),
    {
        &self.remaining
    }

    pub fn loaded_count(&self) -> (r: usize)
        ensures
            r == self.loaded(),
    {
        self.loaded_count
    }

    pub fn error_count(&self) -> (r: usize)
        ensures
            r == self.errors(),
    {
        self.error_count
    }

    /// Starts tracking the load of `handle`.
    pub fn track(&mut self, handle: H)
        requires
            old(self).wf(),
            old(self).loaded() + old(self).errors() + old(self).pending().len() < usize::MAX,
        ensures
            final(self).wf(),
            final(self).loaded() == old(self).loaded(),
            final(self).errors() == old(self).errors(),
            final(self).pending() == old(self).pending().push(handle),
    {
        self.remaining.push(handle);
    }

    /// Takes the status of every pending handle, in order: the loaded and the
    /// failed ones stop being pending and are counted. When this made the
    /// last pending asset finish, `ready` is set and the report is returned.
    pub fn check(&mut self, statuses: &Vec<LoadStatus>, ready: &mut AssetsReady) -> (report:
        Option<LoadReport>)
        requires
            old(self).wf(),
            statuses@.len() == old(self).pending().len(),
        ensures
            final(self).wf(),
            final(self).pending() == still_pending(old(self).pending(), statuses@),
            final(self).loaded() == old(self).loaded() + count_status(
                statuses@,
                LoadStatus::Loaded,
            ),
            final(self).errors() == old(self).errors() + count_status(
                statuses@,
                LoadStatus::Failed,
            ),
            ({
                let changed = count_status(statuses@, LoadStatus::Loaded) + count_status(
                    statuses@,
                    LoadStatus::Failed,
                ) > 0;
                let done = final(self).pending().len() == 0 && changed;
                &&& done ==> final(ready).0
                &&& !done ==> *final(ready) == *old(ready)
                &&& !done ==> report.is_none()
                &&& done && final(self).errors() == 0 ==> report == Some(
                    LoadReport::AllLoaded { loaded: final(self).loaded() as usize },
                )
                &&& done && final(self).errors() > 0 ==> report == Some(
                    LoadReport::FinishedWithErrors {
                        total: (final(self).loaded() + final(self).errors()) as usize,
                        errors: final(self).errors() as usize,
                    },
                )
            }),
    {
        let n = statuses.len();
        let ghost orig = self.remaining@;
        let ghost st = statuses@;
        let mut kept: Vec<H> = Vec::new();
        let mut loaded = self.loaded_count;
        let mut errors = self.error_count;
        let mut i: usize = 0;
        while i < n
            invariant
                n == st.len(),
                n == orig.len(),
                st == statuses@,
                i <= n,
                self.loaded_count == old(self).loaded_count,
                self.error_count == old(self).error_count,
                self.remaining@ == orig.subrange(i as int, n as int),
                kept@ == still_pending(orig.subrange(0, i as int), st.subrange(0, i as int)),
                loaded == self.loaded_count + count_status(st.subrange(0, i as int), LoadStatus::Loaded),
                errors == self.error_count + count_status(st.subrange(0, i as int), LoadStatus::Failed),
                self.loaded_count + self.error_count + orig.len() <= usize::MAX,
                count_status(st.subrange(0, i as int), LoadStatus::Loaded) + count_status(
                    st.subrange(0, i as int),
                    LoadStatus::Failed,
                ) + kept@.len() <= i,
            decreases n - i,
        {
            let h = self.remaining.remove(0);
            proof {
                let a = orig.subrange(0, i + 1);
                let b = st.subrange(0, i + 1);
                assert(a.drop_last() =~= orig.subrange(0, i as int));
                assert(b.subrange(0, i as int) =~= st.subrange(0, i as int));
                assert(b.drop_last() =~= st.subrange(0, i as int));
                assert(a.last() == h);
                assert(self.remaining@ =~= orig.subrange(i + 1, n as int));
            }
            let s = statuses[i];
            match s {
                LoadStatus::Pending => {
                    kept.push(h);
                },
                LoadStatus::Loaded => {
                    loaded = loaded + 1;
                },
                LoadStatus::Failed => {
                    errors = errors + 1;
                },
            }
            i = i + 1;
        }
        proof {
            assert(orig.subrange(0, n as int) =~= orig);
            assert(st.subrange(0, n as int) =~= st);
        }
        let changed = loaded > self.loaded_count || errors > self.error_count;
        self.remaining = kept;
        self.loaded_count = loaded;
        self.error_count = errors;
        if self.remaining.len() == 0 && changed {
            ready.0 = true;
            if errors == 0 {
                Some(LoadReport::AllLoaded { loaded })
            } else {
                Some(LoadReport::FinishedWithErrors { total: loaded + errors, errors })
            }
        } else {
            None
        }
    }
}

/// A speech cue's name is its file name without directories or extension:
/// `start..end` of `s` is the part after the last `/`, up to its first `.`.
pub open spec fn is_file_stem(s: Seq<char>, start: int, end: int) -> bool {
    &&& 0 <= start <= end <= s.len()
    &&& start == 0 || s[start - 1] == '/'
    &&& forall|k: int| start <= k < s.len() ==> s[k] != '/'
    &&& forall|k: int| start <= k < end ==> s[k] != '.'
    &&& end == s.len() || s[end] == '.'
}

/// The name under which a speech file is known: its file name without
/// directories or extension (`"speech/hello_1.ogg"` gives `"hello_1"`).
pub fn speech_name(path: &str) -> (name: String)
    ensures
        exists|start: int, end: int|
            is_file_stem(path@, start, end) && name@ == path@.subrange(start, end),
{
    let n = path.unicode_len();
    let mut start: usize = 0;
    let mut i: usize = 0;
    while i < n
        invariant
            n == path@.len(),
            start <= i <= n,
            start == 0 || path@[start - 1] == '/',
            forall|k: int| start <= k < i ==> path@[k] != '/',
        decreases n - i,
    {
        if path.get_char(i) == '/' {
            start = i + 1;
        }
        i = i + 1;
    }
    let mut end: usize = start;
    while end < n && path.get_char(end) != '.'
        invariant
            n == path@.len(),
            start <= end <= n,
            forall|k: int| start <= k < end ==> path@[k] != '.',
        decreases n - end,
    {
        end = end + 1;
    }
    let name = String::from_str(path.substring_char(start, end));
    assert(is_file_stem(path@, start as int, end as int));
    name
}

} // verus!
