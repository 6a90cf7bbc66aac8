//! The staleness oracle: whether a source has to be compiled again, judged
//! from the instants at which the source, its object and its headers were
//! last changed.
//!
//! An instant is a count of nanoseconds from the Unix epoch, negative
//! before it. A file that is missing, or whose metadata cannot be read,
//! has none: it counts as changed earlier than any file that is there.

use vstd::prelude::*;

verus! {

/// Whether a file last changed at `a` is older than one last changed at
/// `b`. A file that is missing is older than every file that is there, and
/// nothing is older than it.
pub open spec fn before(a: Option<i128>, b: Option<i128>) -> bool {
    match (a, b) {
        (None, Some(_)) => true,
        (Some(x), Some(y)) => x < y,
        _ => false,
    }
}

/// Whether an object is stale: it is missing, or it is older than its
/// source, or one of the headers is not older than it.
pub open spec fn stale(
    source: Option<i128>,
    object: Option<i128>,
    headers: Seq<Option<i128>>,
) -> bool {
    object is None || before(object, source) || exists|i: int|
        0 <= i < headers.len() && !before(#[trigger] headers[i], object)
}

/// Tells whether a file last changed at `a` is older than one last changed
/// at `b`.
pub fn earlier(a: Option<i128>, b: Option<i128>) -> (r: bool)
    ensures
        r == before(a, b),
{
    match (a, b) {
        (None, Some(_)) => true,
        (Some(x), Some(y)) => x < y,
        _ => false,
    }
}

/// Judges whether an object is stale. The headers are looked at in turn,
/// and no further once one of them settles the matter.
pub fn is_stale(source: Option<i128>, object: Option<i128>, headers: &Vec<Option<i128>>) -> (r:
    bool)
    ensures
        r == stale(source, object, headers@),
{
    if object.is_none() || earlier(object, source) {
        return true;
    }
    let mut i: usize = 0;
    while i < headers.len()
        invariant
            i <= headers.len(),
            forall|j: int| 0 <= j < i ==> before(#[trigger] headers@[j], object),
        decreases headers.len() - i,
    {
        if !earlier(headers[i], object) {
            return true;
        }
        i += 1;
    }
    false
}

/// The instant of the last change of `path` among `files`, which holds
/// each file that is there with its instant.
pub open spec fn time_in(files: Map<Seq<char>, i128>, path: Seq<char>) -> Option<i128> {
    if files.dom().contains(path) {
        Some(files[path])
    } else {
        None
    }
}

/// Whether the object of `source` is stale among `files`, where `headers`
/// are the headers that the source was found to depend on.
pub open spec fn stale_in(
    files: Map<Seq<char>, i128>,
    source: Seq<char>,
    object: Seq<char>,
    headers: Seq<Seq<char>>,
) -> bool {
    stale(
        time_in(files, source),
        time_in(files, object),
        headers.map_values(|h: Seq<char>| time_in(files, h)),
    )
}

/// An object that is there and newer than its source and than every header
/// is not stale.
pub proof fn lemma_newer_object_is_fresh(
    files: Map<Seq<char>, i128>,
    source: Seq<char>,
    object: Seq<char>,
    headers: Seq<Seq<char>>,
)
    requires
        before(time_in(files, source), time_in(files, object)),
        forall|i: int|
            0 <= i < headers.len() ==> before(
                time_in(files, #[trigger] headers[i]),
                time_in(files, object),
            ),
    ensures
        !stale_in(files, source, object, headers),
{
}

/// An object that is missing is stale, whatever else is there.
pub proof fn lemma_missing_object_is_stale(
    files: Map<Seq<char>, i128>,
    source: Seq<char>,
    object: Seq<char>,
    headers: Seq<Seq<char>>,
)
    ensures
        stale_in(files.remove(object), source, object, headers),
{
}

/// An object whose instant is set back to before that of its source is
/// stale.
pub proof fn lemma_backdated_object_is_stale(
    files: Map<Seq<char>, i128>,
    source: Seq<char>,
    object: Seq<char>,
    headers: Seq<Seq<char>>,
    time: i128,
)
    requires
        object != source,
        before(Some(time), time_in(files, source)),
    ensures
        stale_in(files.insert(object, time), source, object, headers),
{
}

/// Changing a header that the source depends on, at or after the instant of
/// the object, makes the object stale, though the source stays as it was.
pub proof fn lemma_touched_header_makes_stale(
    files: Map<Seq<char>, i128>,
    source: Seq<char>,
    object: Seq<char>,
    headers: Seq<Seq<char>>,
    header: Seq<char>,
    time: i128,
)
    requires
        headers.contains(header),
        !before(Some(time), time_in(files, object)),
    ensures
        stale_in(files.insert(header, time), source, object, headers),
{
    let after = files.insert(header, time);
    let i = choose|i: int| 0 <= i < headers.len() && headers[i] == header;
    let times = headers.map_values(|h: Seq<char>| time_in(after, h));
    assert(times[i] == Some(time));
    assert(!before(times[i], time_in(after, object)));
}

/// Changing a file that is neither the source, nor the object, nor one of
/// the headers that the source depends on, changes nothing of the
/// judgement.
pub proof fn lemma_unlisted_file_is_ignored(
    files: Map<Seq<char>, i128>,
    source: Seq<char>,
    object: Seq<char>,
    headers: Seq<Seq<char>>,
    other: Seq<char>,
    time: i128,
)
    requires
        other != source,
        other != object,
        !headers.contains(other),
    ensures
        stale_in(files.insert(other, time), source, object, headers) == stale_in(
            files,
            source,
            object,
            headers,
        ),
{
    let after = files.insert(other, time);
    let before_times = headers.map_values(|h: Seq<char>| time_in(files, h));
    let after_times = headers.map_values(|h: Seq<char>| time_in(after, h));
    assert forall|i: int| 0 <= i < headers.len() implies before_times[i] == after_times[i] by {
        assert(headers.contains(headers[i]));
    }
    assert(before_times == after_times);
}

/// A header that is missing never makes an object stale: among files
/// without it, the judgement is the same as if the source did not depend
/// on it.
pub proof fn lemma_missing_header_is_ignored(
    source: Option<i128>,
    object: Option<i128>,
    headers: Seq<Option<i128>>,
)
    ensures
        stale(source, object, headers.push(None)) == stale(source, object, headers),
{
    let more = headers.push(None);
    if stale(source, object, more) && object is Some && !before(object, source) {
        let i = choose|i: int| 0 <= i < more.len() && !before(#[trigger] more[i], object);
        assert(i < headers.len());
        assert(!before(headers[i], object));
    }
    if stale(source, object, headers) && object is Some && !before(object, source) {
        let i = choose|i: int| 0 <= i < headers.len() && !before(#[trigger] headers[i], object);
        assert(!before(more[i], object));
    }
}

/// One judgement in progress: the instants are asked for one file at a time
/// (the source, the object, then each header in turn), and no further once
/// the matter is settled.
pub struct StalenessCheck {
    source: String,
    object: String,
    headers: Vec<String>,
    basics: u8,
    answered: usize,
    source_time: Option<i128>,
    object_time: Option<i128>,
    decided: Option<bool>,
    seen: Ghost<Seq<Option<i128>>>,
}

/// The mathematical form of a [`StalenessCheck`]: the files that it is
/// about, and the instants that it was told so far, in the order in which
/// it asked.
pub struct StalenessView {
    pub source: Seq<char>,
    pub object: Seq<char>,
    pub headers: Seq<Seq<char>>,
    pub seen: Seq<Option<i128>>,
}

impl StalenessView {
    /// A judgement that was told nothing yet.
    pub open spec fn fresh(source: Seq<char>, object: Seq<char>, headers: Seq<Seq<char>>) -> Self {
        StalenessView { source, object, headers, seen: Seq::empty() }
    }

    /// The files in the order in which their instants are asked for.
    pub open spec fn paths(self) -> Seq<Seq<char>> {
        seq![self.source, self.object] + self.headers
    }

    /// What is settled: stale as soon as the instants told so far show it,
    /// fresh once every file was asked about and none showed it.
    pub open spec fn verdict(self) -> Option<bool> {
        if self.seen.len() < 2 {
            None
        } else if stale(self.seen[0], self.seen[1], self.seen.skip(2)) {
            Some(true)
        } else if self.seen.len() >= 2 + self.headers.len() {
            Some(false)
        } else {
            None
        }
    }

    /// The file whose instant is asked for next, while nothing is settled.
    pub open spec fn next_path(self) -> Option<Seq<char>> {
        if self.verdict() is Some {
            None
        } else {
            Some(self.paths()[self.seen.len() as int])
        }
    }

    /// The judgement after it was told `time` in answer to its question.
    /// Once the matter is settled, nothing changes any more.
    pub open spec fn observe(self, time: Option<i128>) -> Self {
        if self.verdict() is Some {
            self
        } else {
            StalenessView { seen: self.seen.push(time), ..self }
        }
    }

    /// Whether every instant told so far is the one that `files` holds for
    /// the file that was asked about.
    pub open spec fn told_by(self, files: Map<Seq<char>, i128>) -> bool {
        &&& self.seen.len() <= self.paths().len()
        &&& forall|k: int|
            0 <= k < self.seen.len() ==> #[trigger] self.seen[k] == time_in(
                files,
                self.paths()[k],
            )
    }
}

/// A settled judgement is the judgement of the oracle: where every answer
/// came from `files`, the verdict says whether the object is stale among
/// `files`, though the headers after the one that settled it were never
/// asked about.
pub proof fn lemma_verdict_is_staleness(check: StalenessView, files: Map<Seq<char>, i128>)
    requires
        check.told_by(files),
        check.verdict() is Some,
    ensures
        check.verdict() == Some(
            stale_in(files, check.source, check.object, check.headers),
        ),
{
    let times = check.headers.map_values(|h: Seq<char>| time_in(files, h));
    let seen = check.seen;
    assert(seen[0] == time_in(files, check.paths()[0]));
    assert(seen[1] == time_in(files, check.paths()[1]));
    assert forall|i: int| 0 <= i < seen.len() - 2 implies seen.skip(2)[i] == times[i] by {
        assert(seen[i + 2] == time_in(files, check.paths()[i + 2]));
    }
    if stale(seen[0], seen[1], seen.skip(2)) {
        if seen[1] is Some && !before(seen[1], seen[0]) {
            let i = choose|i: int|
                0 <= i < seen.skip(2).len() && !before(#[trigger] seen.skip(2)[i], seen[1]);
            assert(!before(times[i], seen[1]));
        }
    } else {
        assert forall|i: int| 0 <= i < times.len() implies before(times[i], seen[1]) by {
            assert(seen.skip(2)[i] == times[i]);
        }
    }
}

/// An answer that comes from `files` keeps a judgement told by `files`.
pub proof fn lemma_answer_from_files(
    check: StalenessView,
    files: Map<Seq<char>, i128>,
    time: Option<i128>,
)
    requires
        check.told_by(files),
        check.next_path() matches Some(path) ==> time == time_in(files, path),
    ensures
        check.observe(time).told_by(files),
{
}

impl View for StalenessCheck {
    type V = StalenessView;

    closed spec fn view(&self) -> StalenessView {
        StalenessView {
            source: self.source@,
            object: self.object@,
            headers: crate::text::texts(self.headers@),
            seen: self.seen@,
        }
    }
}

impl StalenessCheck {
    /// What holds of every judgement that this module hands out: it was
    /// told no more than it asked, and it asked nothing after the matter
    /// was settled.
    pub closed spec fn wf(&self) -> bool {
        &&& self.basics <= 2
        &&& self.answered <= self.headers@.len()
        &&& self.basics < 2 ==> self.answered == 0
        &&& self.seen@.len() == self.basics + self.answered
        &&& self.basics >= 1 ==> self.source_time == self.seen@[0]
        &&& self.basics >= 2 ==> self.object_time == self.seen@[1]
        &&& self.decided == self@.verdict()
    }

    /// Starts a judgement on the object of `source`, which depends on
    /// `headers`. Nothing is settled yet, and nothing was told.
    pub fn new(source: String, object: String, headers: Vec<String>) -> (r: Self)
        ensures
            r.wf(),
            r@ == StalenessView::fresh(source@, object@, crate::text::texts(headers@)),
    {
        StalenessCheck {
            source,
            object,
            headers,
            basics: 0,
            answered: 0,
            source_time: None,
            object_time: None,
            decided: None,
            seen: Ghost(Seq::empty()),
        }
    }

    /// What is settled so far.
    pub fn verdict(&self) -> (r: Option<bool>)
        requires
            self.wf(),
        ensures
            r == self@.verdict(),
    {
        self.decided
    }

    /// The file whose instant has to be told next, while nothing is
    /// settled.
    pub fn next_path(&self) -> (r: Option<&String>)
        requires
            self.wf(),
        ensures
            r is Some <==> self@.next_path() is Some,
            r matches Some(path) ==> self@.next_path() == Some(path@),
    {
        if self.decided.is_some() {
            None
        } else if self.basics == 0 {
            Some(&self.source)
        } else if self.basics == 1 {
            Some(&self.object)
        } else {
            Some(&self.headers[self.answered])
        }
    }

    /// Takes the instant of the file that was asked about, `None` where the
    /// file is missing or cannot be read. Once the matter is settled, an
    /// answer changes nothing.
    pub fn observe(&mut self, time: Option<i128>)
        requires
            old(self).wf(),
        ensures
            final(self).wf(),
            final(self)@ == old(self)@.observe(time),
    {
        if self.decided.is_some() {
            return ;
        }
        let ghost before_seen = self.seen@;
        proof {
            self.seen = Ghost(before_seen.push(time));
        }
        if self.basics == 0 {
            self.source_time = time;
            self.basics = 1;
        } else if self.basics == 1 {
            self.object_time = time;
            self.basics = 2;
            assert(self.seen@.skip(2).len() == 0);
            if time.is_none() || earlier(time, self.source_time) {
                self.decided = Some(true);
            } else if self.headers.len() == 0 {
                self.decided = Some(false);
            }
        } else {
            let count = self.headers.len();
            assert(self.answered < count) by {
                assert(old(self)@.verdict() is None);
            }
            self.answered = self.answered + 1;
            let ghost earlier_seen = before_seen.skip(2);
            let ghost now = self.seen@.skip(2);
            assert(now == earlier_seen.push(time));
            assert(!stale(before_seen[0], before_seen[1], earlier_seen));
            if !earlier(time, self.object_time) {
                assert(now[now.len() - 1] == time);
                self.decided = Some(true);
            } else {
                assert forall|i: int| 0 <= i < now.len() implies before(
                    now[i],
                    self.object_time,
                ) by {
                    if i < earlier_seen.len() {
                        assert(now[i] == earlier_seen[i]);
                    }
                }
                if self.answered == count {
                    self.decided = Some(false);
                }
            }
        }
    }
}

} // verus!
