use vstd::prelude::*;

verus! {

/// Mathematical model of one log destination. `files` holds the bytes this
/// run has appended to every file generation created at the sink's path,
/// oldest first; the last entry is the file the current handle refers to.
/// `stale` says the current handle's inode has been unlinked from the path.
pub struct SinkView {
    pub files: Seq<Seq<u8>>,
    pub stale: bool,
}

/// Concatenation of a sequence of byte strings, in order.
pub open spec fn concat_all(files: Seq<Seq<u8>>) -> Seq<u8>
    decreases files.len(),
{
    if files.len() == 0 {
        Seq::empty()
    } else {
        concat_all(files.drop_last()) + files.last()
    }
}

impl SinkView {
    /// There is always a current file generation.
    pub open spec fn wf(self) -> bool {
        self.files.len() >= 1
    }

    /// Every byte this run has appended at the sink's path, across all
    /// rotations, in the order written.
    pub open spec fn appended(self) -> Seq<u8> {
        concat_all(self.files)
    }

    /// The bytes appended to the file the current handle refers to.
    pub open spec fn current(self) -> Seq<u8> {
        self.files.last()
    }

    /// Rotation: the handle is replaced by one on a fresh, empty file at the
    /// same path; everything already appended stays where it is.
    pub open spec fn rotated(self) -> SinkView {
        SinkView { files: self.files.push(Seq::empty()), stale: false }
    }

    /// Appending to the current generation, wherever the handle points.
    pub open spec fn appended_with(self, bytes: Seq<u8>) -> SinkView {
        SinkView {
            files: self.files.update(self.files.len() - 1, self.files.last() + bytes),
            stale: self.stale,
        }
    }

    /// One delivery of bytes: a stale handle is first replaced, so that no
    /// byte lands in a file that was rotated away; then the bytes go to the
    /// current file.
    pub open spec fn delivered(self, bytes: Seq<u8>) -> SinkView {
        if self.stale {
            self.rotated().appended_with(bytes)
        } else {
            self.appended_with(bytes)
        }
    }

    /// The outside world unlinked the current file from the path.
    pub open spec fn marked_stale(self) -> SinkView {
        SinkView { files: self.files, stale: true }
    }
}

/// Rotation creates a fresh generation and loses nothing.
pub proof fn lemma_rotated_preserves_appended(v: SinkView)
    ensures
        v.rotated().wf(),
        v.rotated().appended() == v.appended(),
        v.rotated().current() == Seq::<u8>::empty(),
        !v.rotated().stale,
{
    assert(v.rotated().files.drop_last() =~= v.files);
    assert(concat_all(v.files) + Seq::<u8>::empty() =~= concat_all(v.files));
}

/// Appending extends the total appended bytes by exactly the bytes written.
pub proof fn lemma_appended_with_adds(v: SinkView, bytes: Seq<u8>)
    requires
        v.wf(),
    ensures
        v.appended_with(bytes).wf(),
        v.appended_with(bytes).appended() == v.appended() + bytes,
        v.appended_with(bytes).current() == v.current() + bytes,
{
    let u = v.appended_with(bytes).files;
    assert(u.drop_last() =~= v.files.drop_last());
    assert(u.last() == v.files.last() + bytes);
    assert(concat_all(v.files.drop_last()) + (v.files.last() + bytes) =~= (concat_all(
        v.files.drop_last(),
    ) + v.files.last()) + bytes);
}

/// One delivery never loses, duplicates, or reorders bytes, and it always
/// leaves a live handle. When the old handle was stale, the bytes are exactly
/// the content of the freshly created file.
pub proof fn lemma_delivered_exact(v: SinkView, bytes: Seq<u8>)
    requires
        v.wf(),
    ensures
        v.delivered(bytes).wf(),
        v.delivered(bytes).appended() == v.appended() + bytes,
        !v.delivered(bytes).stale,
        v.stale ==> v.delivered(bytes).current() == bytes,
        !v.stale ==> v.delivered(bytes).current() == v.current() + bytes,
{
    if v.stale {
        lemma_rotated_preserves_appended(v);
        lemma_appended_with_adds(v.rotated(), bytes);
        assert(Seq::<u8>::empty() + bytes =~= bytes);
    } else {
        lemma_appended_with_adds(v, bytes);
    }
}

/// Executable model of one log sink: the bytes this run has appended to each
/// generation at its path, and whether the current handle has gone stale.
/// The on-disk handle itself lives with the caller that performs the I/O;
/// this value is the ledger the event loop's guarantees are stated over.
pub struct LogSink {
    /// Bytes appended to generations already rotated away, oldest first.
    pub archived: Vec<Vec<u8>>,
    /// Bytes appended to the file the current handle refers to.
    pub current: Vec<u8>,
    /// The current handle's inode has been unlinked from the path.
    pub stale: bool,
}

impl View for LogSink {
    type V = SinkView;

    open spec fn view(&self) -> SinkView {
        SinkView {
            files: self.archived@.map_values(|v: Vec<u8>| v@).push(self.current@),
            stale: self.stale,
        }
    }
}

impl LogSink {
    /// A sink freshly opened at its path: one empty generation, live handle.
    pub fn new() -> (s: LogSink)
        ensures
            s@ == (SinkView { files: seq![Seq::<u8>::empty()], stale: false }),
            s@.wf(),
    {
        let s = LogSink { archived: Vec::new(), current: Vec::new(), stale: false };
        proof {
            assert(s@.files =~= seq![Seq::<u8>::empty()]);
            assert(s@ =~= (SinkView { files: seq![Seq::<u8>::empty()], stale: false }));
        }
        s
    }

    /// Whether the next write must reopen first.
    pub fn is_stale(&self) -> (b: bool)
        ensures
            b == self@.stale,
    {
        self.stale
    }

    /// Reopens the sink at its path: the old generation is archived and a
    /// fresh, empty one becomes current. Nothing already appended changes.
    pub fn rotate(&mut self)
        ensures
            final(self)@ == old(self)@.rotated(),
            final(self)@.appended() == old(self)@.appended(),
    {
        let mut fresh: Vec<u8> = Vec::new();
        core::mem::swap(&mut self.current, &mut fresh);
        self.archived.push(fresh);
        self.stale = false;
        proof {
            assert(self@.files =~= old(self)@.rotated().files);
            assert(self@ =~= old(self)@.rotated());
            lemma_rotated_preserves_appended(old(self)@);
        }
    }

    /// The outside world unlinked the current file (an external rotation the
    /// wrapper was not signalled about); the next write must not land there.
    pub fn mark_external_rotation(&mut self)
        ensures
            final(self)@ == old(self)@.marked_stale(),
    {
        self.stale = true;
        proof {
            assert(self@ =~= old(self)@.marked_stale());
        }
    }

    /// Appends bytes to the current generation.
    pub fn write(&mut self, bytes: Vec<u8>)
        ensures
            final(self)@ == old(self)@.appended_with(bytes@),
    {
        let mut b = bytes;
        self.current.append(&mut b);
        proof {
            assert(self@.files =~= old(self)@.appended_with(bytes@).files);
            assert(self@ =~= old(self)@.appended_with(bytes@));
        }
    }

    /// Delivers one chunk read from the child: reopens first when the handle
    /// is stale, then appends, so the bytes always land in the file currently
    /// named by the path and none are lost.
    pub fn deliver(&mut self, bytes: Vec<u8>)
        requires
            old(self)@.wf(),
        ensures
            final(self)@ == old(self)@.delivered(bytes@),
            final(self)@.wf(),
            final(self)@.appended() == old(self)@.appended() + bytes@,
    {
        proof {
            lemma_delivered_exact(old(self)@, bytes@);
        }
        if self.is_stale() {
            self.rotate();
        }
        self.write(bytes);
    }
}

/// Relies on nix::sys::stat::fstat: returns the stat of the open descriptor,
/// of which only st_nlink, the inode's hard-link count, is kept; the error is
/// the OS errno. The count depends on what the filesystem holds at the moment
/// of the call, so nothing is promised of the value.
#[verifier::external_body]
fn fd_link_count(fd: i32) -> (r: Result<u64, i32>) {
    match nix::sys::stat::fstat(fd) {
        Ok(st) => Ok(st.st_nlink),
        Err(e) => Err(e as i32),
    }
}

/// Decides staleness from a hard-link count: a count of zero means the open
/// inode has been unlinked from the filesystem namespace, so the handle no
/// longer refers to the file named by the sink's path.
pub fn staleness_from_link_count(nlink: u64) -> (stale: bool)
    ensures
        stale == (nlink == 0),
{
    nlink == 0
}

/// Asks the OS whether the handle `fd` still has a name on the filesystem.
/// `Ok(true)` means the handle is live; `Ok(false)` means it is stale and the
/// caller must reopen before the next write; the error is the OS errno. The
/// answer depends on the filesystem at the moment of the call, so no more can
/// be promised of it.
pub fn check_for_stale_handle(fd: i32) -> (r: Result<bool, i32>) {
    match fd_link_count(fd) {
        Ok(nlink) => Ok(!staleness_from_link_count(nlink)),
        Err(e) => Err(e),
    }
}

} // verus!
