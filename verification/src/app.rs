//! The queue controller: the player state that the event loop drives. It
//! owns the ordered list of pending track files, the metadata record
//! sequence kept in lockstep with it, and the device model, and mutates the
//! three together through four user-facing operations — play-now, append,
//! skip and clear — so they never observably disagree. The track currently
//! heard is always the head of the queue; no separate cursor exists to fall
//! out of step.

use crate::config::ConfigData;
use crate::metadata::{FileMetadata, MetaView};
use crate::metadata_queue::MetadataQueue;
use crate::sink::{AudioError, SinkHandler, SinkView};
use vstd::prelude::*;

verus! {

/// Which panel the interface shows.
#[derive(Clone, Copy, Debug, PartialEq, Eq, Structural)]
pub enum Tab {
    Playlist,
    Browser,
}

/// Whether the session keeps running.
#[derive(Clone, Copy, Debug, PartialEq, Eq, Structural)]
pub enum State {
    Running,
    Quit,
}

/// What the user acted on, after the surrounding layer looked at it: a
/// directory (ignored), a file that could not be opened or decoded (ignored
/// here, surfaced as a notice there), or a playable track with its record.
pub enum Selection {
    Directory,
    Unplayable(AudioError),
    Track(FileMetadata),
}

/// The mathematical value of a `Selection`.
#[verifier::ext_equal]
pub enum SelectionView {
    Directory,
    Unplayable(AudioError),
    Track(MetaView),
}

impl View for Selection {
    type V = SelectionView;

    open spec fn view(&self) -> SelectionView {
        match self {
            Selection::Directory => SelectionView::Directory,
            Selection::Unplayable(e) => SelectionView::Unplayable(*e),
            Selection::Track(m) => SelectionView::Track(m@),
        }
    }
}

/// The mathematical value of the whole player: the pending file queue, its
/// metadata mirror, the record on display, and the device model.
#[verifier::ext_equal]
pub struct AppView {
    /// Pending track files in playback order; the head is playing.
    pub paths: Seq<Seq<char>>,
    /// The metadata record for each entry of `paths`, index-aligned.
    pub metas: Seq<MetaView>,
    /// The record the metadata queue holds as current.
    pub current: MetaView,
    /// The record on display.
    pub data: MetaView,
    /// The device model.
    pub sink: SinkView,
    pub state: State,
    pub tab: Tab,
}

/// The device calls that append every file of `paths` in order.
pub open spec fn appended_all(sink: SinkView, paths: Seq<Seq<char>>) -> SinkView
    decreases paths.len(),
{
    if paths.len() == 0 {
        sink
    } else {
        appended_all(sink.appended(paths[0]), paths.skip(1))
    }
}

/// The device calls that rebuild the play sequence as `paths`: load the head
/// afresh at the standing volume, then append the rest in order. The device
/// only appends to its own sequence, so reordering always goes this way.
pub open spec fn rebuilt(sink: SinkView, paths: Seq<Seq<char>>) -> SinkView
    recommends
        paths.len() > 0,
{
    appended_all(sink.loaded(paths[0], sink.vol), paths.skip(1))
}

impl AppView {
    /// Consistency of the player: both queues have the same length and agree
    /// file by file, the device's play sequence is exactly the path queue,
    /// and the record on display is the head record, or the empty record
    /// when nothing is queued.
    pub open spec fn inv(self) -> bool {
        &&& self.metas.len() == self.paths.len()
        &&& forall|i: int|
            0 <= i < self.paths.len() ==> (#[trigger] self.metas[i]).file_path == self.paths[i]
        &&& self.sink.sources == self.paths
        &&& self.current == (if self.paths.len() > 0 {
            self.metas[0]
        } else {
            MetaView::empty()
        })
        &&& self.data == self.current
    }

    /// Play-now: `m` becomes the track heard right away. On an empty player
    /// it is loaded alone; otherwise it is put at the head and the device's
    /// play sequence is rebuilt in the new order, the prior entries keeping
    /// their relative order behind it. Directories and unplayable files
    /// change nothing.
    pub open spec fn played(self, sel: SelectionView) -> AppView {
        match sel {
            SelectionView::Track(m) => {
                if self.sink.is_empty() {
                    AppView {
                        paths: seq![m.file_path],
                        metas: seq![m],
                        current: m,
                        data: m,
                        sink: self.sink.loaded(m.file_path, self.sink.vol),
                        ..self
                    }
                } else {
                    let paths = seq![m.file_path] + self.paths;
                    AppView {
                        paths: paths,
                        metas: seq![m] + self.metas,
                        current: m,
                        data: m,
                        sink: rebuilt(self.sink, paths),
                        ..self
                    }
                }
            },
            _ => self,
        }
    }

    /// Append: `m` joins the end of the queue. On an empty player this is
    /// play-now; otherwise playback is not interrupted. Directories and
    /// unplayable files change nothing.
    pub open spec fn pushed(self, sel: SelectionView) -> AppView {
        match sel {
            SelectionView::Track(m) => {
                if self.sink.is_empty() {
                    AppView {
                        paths: self.paths.push(m.file_path),
                        metas: seq![m],
                        current: m,
                        data: m,
                        sink: self.sink.loaded(m.file_path, self.sink.vol),
                        ..self
                    }
                } else {
                    AppView {
                        paths: self.paths.push(m.file_path),
                        metas: self.metas.push(m),
                        sink: self.sink.appended(m.file_path),
                        ..self
                    }
                }
            },
            _ => self,
        }
    }

    /// Skip: the head track is dropped, the device cleared, and when a next
    /// track exists the play sequence is rebuilt behind it and its record
    /// goes on display; an empty player is left untouched.
    pub open spec fn skipped(self) -> AppView {
        if self.paths.len() == 0 {
            self
        } else {
            let rest = self.paths.skip(1);
            if rest.len() > 0 {
                AppView {
                    paths: rest,
                    metas: self.metas.skip(1),
                    current: self.metas[1],
                    data: self.metas[1],
                    sink: rebuilt(self.sink.cleared(), rest),
                    ..self
                }
            } else {
                AppView {
                    paths: rest,
                    metas: self.metas.skip(1),
                    current: MetaView::empty(),
                    data: MetaView::empty(),
                    sink: self.sink.cleared(),
                    ..self
                }
            }
        }
    }

    /// Clear: a full stop. The device is cleared and both queues emptied;
    /// the display resets to the empty record.
    pub open spec fn stopped(self) -> AppView {
        AppView {
            paths: Seq::empty(),
            metas: Seq::empty(),
            current: MetaView::empty(),
            data: MetaView::empty(),
            sink: self.sink.cleared(),
            ..self
        }
    }

    /// End of track: the device finished the head source on its own, so both
    /// queues advance past it and the next record, if any, goes on display.
    pub open spec fn track_ended(self) -> AppView {
        if self.paths.len() == 0 {
            self
        } else {
            AppView {
                paths: self.paths.skip(1),
                metas: self.metas.skip(1),
                current: (if self.paths.len() > 1 {
                    self.metas[1]
                } else {
                    MetaView::empty()
                }),
                data: (if self.paths.len() > 1 {
                    self.metas[1]
                } else {
                    MetaView::empty()
                }),
                sink: self.sink.advanced(),
                ..self
            }
        }
    }

    /// Everything the user can observe of the player; the pending device
    /// call log is not part of it.
    pub open spec fn player_state(self) -> (
        Seq<Seq<char>>,
        Seq<MetaView>,
        MetaView,
        MetaView,
        Seq<Seq<char>>,
        bool,
        i16,
        u64,
        State,
        Tab,
    ) {
        (
            self.paths,
            self.metas,
            self.current,
            self.data,
            self.sink.sources,
            self.sink.paused,
            self.sink.vol,
            self.sink.pos_millis,
            self.state,
            self.tab,
        )
    }
}

/// Appending files one at a time is the same as appending them all at once.
proof fn lemma_appended_all_push(sink: SinkView, paths: Seq<Seq<char>>, path: Seq<char>)
    ensures
        appended_all(sink, paths.push(path)) == appended_all(sink, paths).appended(path),
    decreases paths.len(),
{
    if paths.len() == 0 {
        assert(paths.push(path)[0] == path);
        assert(paths.push(path).skip(1) =~= Seq::<Seq<char>>::empty());
        assert(appended_all(sink, paths.push(path)) == appended_all(
            sink.appended(path),
            Seq::<Seq<char>>::empty(),
        ));
        assert(appended_all(sink.appended(path), Seq::<Seq<char>>::empty()) == sink.appended(path));
        assert(appended_all(sink, paths) == sink);
    } else {
        assert(paths.push(path)[0] == paths[0]);
        assert(paths.push(path).skip(1) =~= paths.skip(1).push(path));
        assert(appended_all(sink, paths.push(path)) == appended_all(
            sink.appended(paths[0]),
            paths.skip(1).push(path),
        ));
        lemma_appended_all_push(sink.appended(paths[0]), paths.skip(1), path);
        assert(appended_all(sink, paths) == appended_all(sink.appended(paths[0]), paths.skip(1)));
    }
}

/// What a run of appends does to a non-empty device: the files join the play
/// sequence in order, nothing else changes, and one append call is recorded
/// for each.
proof fn lemma_appended_all_facts(sink: SinkView, paths: Seq<Seq<char>>)
    requires
        sink.sources.len() > 0,
    ensures
        (appended_all(sink, paths).sources == sink.sources + paths),
        appended_all(sink, paths).paused == sink.paused,
        appended_all(sink, paths).vol == sink.vol,
        appended_all(sink, paths).pos_millis == sink.pos_millis,
        (appended_all(sink, paths).commands == sink.commands + paths.map_values(
            |p: Seq<char>| crate::sink::CommandView::Append { path: p },
        )),
    decreases paths.len(),
{
    if paths.len() == 0 {
        assert(sink.sources + paths =~= sink.sources);
        assert(sink.commands + paths.map_values(
            |p: Seq<char>| crate::sink::CommandView::Append { path: p },
        ) =~= sink.commands);
    } else {
        lemma_appended_all_facts(sink.appended(paths[0]), paths.skip(1));
        assert(sink.sources.push(paths[0]) + paths.skip(1) =~= sink.sources + paths);
        assert(sink.commands.push(crate::sink::CommandView::Append { path: paths[0] })
            + paths.skip(1).map_values(
            |p: Seq<char>| crate::sink::CommandView::Append { path: p },
        ) =~= sink.commands + paths.map_values(
            |p: Seq<char>| crate::sink::CommandView::Append { path: p },
        ));
    }
}

/// The file queue as mathematical values.
pub open spec fn path_views(paths: Seq<String>) -> Seq<Seq<char>> {
    paths.map_values(|p: String| p@)
}

/// Play-now keeps the player consistent.
proof fn lemma_played_preserves_inv(v: AppView, sel: SelectionView)
    requires
        v.inv(),
    ensures
        v.played(sel).inv(),
{
    match sel {
        SelectionView::Track(m) => {
            let w = v.played(sel);
            if v.sink.is_empty() {
                assert(w.sink.sources =~= w.paths);
            } else {
                let newpaths = seq![m.file_path] + v.paths;
                lemma_appended_all_facts(
                    v.sink.loaded(newpaths[0], v.sink.vol),
                    newpaths.skip(1),
                );
                assert(seq![newpaths[0]] + newpaths.skip(1) =~= newpaths);
                assert(w.sink.sources == newpaths);
                assert forall|i: int|
                    0 <= i < w.paths.len() implies (#[trigger] w.metas[i]).file_path
                    == w.paths[i] by {
                    if i > 0 {
                        assert(w.metas[i] == v.metas[i - 1]);
                        assert(w.paths[i] == v.paths[i - 1]);
                    }
                }
            }
        },
        _ => {},
    }
}

/// Skip keeps the player consistent.
proof fn lemma_skipped_preserves_inv(v: AppView)
    requires
        v.inv(),
    ensures
        v.skipped().inv(),
{
    if v.paths.len() > 0 {
        let rest = v.paths.skip(1);
        let w = v.skipped();
        if rest.len() > 0 {
            lemma_appended_all_facts(
                v.sink.cleared().loaded(rest[0], v.sink.cleared().vol),
                rest.skip(1),
            );
            assert(seq![rest[0]] + rest.skip(1) =~= rest);
            assert(w.sink.sources == rest);
            assert forall|i: int|
                0 <= i < w.paths.len() implies (#[trigger] w.metas[i]).file_path == w.paths[i] by {
                assert(w.metas[i] == v.metas[i + 1]);
                assert(w.paths[i] == v.paths[i + 1]);
            }
            assert(w.current == w.metas[0]);
        } else {
            assert(w.sink.sources =~= w.paths);
        }
    }
}

/// End of track keeps the player consistent.
proof fn lemma_track_ended_preserves_inv(v: AppView)
    requires
        v.inv(),
    ensures
        v.track_ended().inv(),
{
    if v.paths.len() > 0 {
        let w = v.track_ended();
        assert(w.sink.sources =~= w.paths);
        assert forall|i: int|
            0 <= i < w.paths.len() implies (#[trigger] w.metas[i]).file_path == w.paths[i] by {
            assert(w.metas[i] == v.metas[i + 1]);
            assert(w.paths[i] == v.paths[i + 1]);
        }
        if v.paths.len() > 1 {
            assert(w.current == w.metas[0]);
        }
    }
}

/// Appends every queue entry behind the head to the device, in order. The
/// device must already be loaded with the head.
fn append_tail(audio: &mut SinkHandler, paths: &Vec<String>)
    requires
        paths@.len() >= 1,
    ensures
        (final(audio)@ == appended_all(old(audio)@, path_views(paths@).skip(1))),
{
    let ghost ps: Seq<Seq<char>> = path_views(paths@);
    let ghost s0: SinkView = audio@;
    let mut i: usize = 1;
    proof {
        assert(ps.subrange(1, 1) =~= Seq::<Seq<char>>::empty());
    }
    while i < paths.len()
        invariant
            1 <= i <= paths@.len(),
            (ps == path_views(paths@)),
            (audio@ == appended_all(s0, ps.subrange(1, i as int))),
        decreases paths@.len() - i,
    {
        proof {
            assert(ps.subrange(1, (i + 1) as int) =~= ps.subrange(1, i as int).push(ps[i as int]));
            lemma_appended_all_push(s0, ps.subrange(1, i as int), ps[i as int]);
        }
        audio.append_to_sink(&paths[i]);
        i = i + 1;
    }
    proof {
        assert(ps.subrange(1, ps.len() as int) =~= ps.skip(1));
    }
}

/// Append keeps the player consistent.
proof fn lemma_pushed_preserves_inv(v: AppView, sel: SelectionView)
    requires
        v.inv(),
    ensures
        v.pushed(sel).inv(),
{
    match sel {
        SelectionView::Track(m) => {
            let w = v.pushed(sel);
            if v.sink.is_empty() {
                assert(v.paths.len() == 0);
                assert(w.sink.sources =~= w.paths);
            } else {
                assert(v.paths.len() > 0);
                assert(w.sink.sources =~= w.paths);
                assert(w.metas[0] == v.metas[0]);
            }
        },
        _ => {},
    }
}

/// The player.
pub struct App {
    pub audio: SinkHandler,
    pub config: ConfigData,
    pub data: FileMetadata,
    pub meta_manager: MetadataQueue,
    pub path_queue: Vec<String>,
    pub state: State,
    pub tab: Tab,
}

impl View for App {
    type V = AppView;

    open spec fn view(&self) -> AppView {
        AppView {
            paths: self.path_queue@.map_values(|p: String| p@),
            metas: self.meta_manager.metas(),
            current: self.meta_manager.current@,
            data: self.data@,
            sink: self.audio@,
            state: self.state,
            tab: self.tab,
        }
    }
}

impl App {
    /// A fresh session: nothing queued, nothing loaded, browser shown.
    pub fn new(config: ConfigData) -> (app: App)
        ensures
            app@.paths == Seq::<Seq<char>>::empty(),
            app@.metas == Seq::<MetaView>::empty(),
            app@.current == MetaView::empty(),
            app@.data == MetaView::empty(),
            app@.sink.sources == Seq::<Seq<char>>::empty(),
            app@.sink.paused == false,
            app@.sink.vol == 100i16,
            app@.sink.commands == Seq::<crate::sink::CommandView>::empty(),
            app@.state == State::Running,
            app@.tab == Tab::Browser,
            app@.inv(),
    {
        let app = App {
            audio: SinkHandler::new(),
            config: config,
            data: FileMetadata::new(),
            meta_manager: MetadataQueue::new(),
            path_queue: Vec::new(),
            state: State::Running,
            tab: Tab::Browser,
        };
        proof {
            assert(app@.paths =~= Seq::<Seq<char>>::empty());
        }
        app
    }

    /// Play-now: the selected track becomes the one heard right away. When
    /// nothing is loaded it is simply loaded and played; otherwise it goes
    /// to the head of the queue and the device's play sequence is rebuilt in
    /// the new order, since the device can only append to its own sequence.
    /// A directory or an unplayable file changes nothing.
    pub fn handle_play(&mut self, selected: &Selection)
        requires
            old(self)@.inv(),
        ensures
            (final(self)@ == old(self)@.played(selected@)),
            final(self)@.inv(),
    {
        match selected {
            Selection::Track(data) => {
                let path = data.file_path.clone();
                if self.audio.is_empty() {
                    let level = self.audio.vol;
                    self.audio.play_file(&path, level);
                    self.meta_manager.update_current(data, true);
                    self.data = self.meta_manager.current.clone();
                    self.path_queue.push(path);
                    proof {
                        assert(final(self)@ =~~= old(self)@.played(selected@));
                        lemma_played_preserves_inv(old(self)@, selected@);
                    }
                } else {
                    self.path_queue.insert(0, path);
                    let head = self.path_queue[0].clone();
                    let level = self.audio.vol;
                    self.audio.play_file(&head, level);
                    append_tail(&mut self.audio, &self.path_queue);
                    self.meta_manager.update_current(data, false);
                    self.data = self.meta_manager.current.clone();
                    proof {
                        let newpaths = seq![data@.file_path] + old(self)@.paths;
                        assert(path_views(self.path_queue@) =~= newpaths);
                        assert(self@.paths =~= newpaths);
                        assert(head@ == newpaths[0]);
                        assert(final(self)@ =~~= old(self)@.played(selected@));
                        lemma_played_preserves_inv(old(self)@, selected@);
                    }
                }
            },
            Selection::Directory => {
            },
            Selection::Unplayable(_) => {
            },
        }
    }

    /// Append: the selected track joins the end of the queue. When nothing
    /// is loaded this behaves as play-now, there being nothing to append to;
    /// otherwise current playback is not interrupted. A directory or an
    /// unplayable file changes nothing.
    pub fn handle_append(&mut self, selected: &Selection)
        requires
            old(self)@.inv(),
        ensures
            (final(self)@ == old(self)@.pushed(selected@)),
            final(self)@.inv(),
    {
        match selected {
            Selection::Track(data) => {
                let path = data.file_path.clone();
                if self.audio.is_empty() {
                    let level = self.audio.vol;
                    self.audio.play_file(&path, level);
                    self.meta_manager.update_current(data, true);
                    self.data = self.meta_manager.current.clone();
                } else {
                    self.audio.append_to_sink(&path);
                    self.meta_manager.queue_metadata(data);
                }
                self.path_queue.push(path);
                proof {
                    assert(final(self)@ =~~= old(self)@.pushed(selected@));
                    lemma_pushed_preserves_inv(old(self)@, selected@);
                }
            },
            Selection::Directory => {
            },
            Selection::Unplayable(_) => {
            },
        }
    }

    /// Skip: advances past the track currently heard. The head leaves both
    /// queues, the device is cleared, and when a next track exists the play
    /// sequence is rebuilt behind it and its record goes on display. With
    /// nothing queued this is a no-op: no state change, no error.
    pub fn handle_skip(&mut self)
        requires
            old(self)@.inv(),
        ensures
            (final(self)@ == old(self)@.skipped()),
            final(self)@.inv(),
    {
        if self.audio.get_len() > 0 {
            proof {
                assert(old(self)@.paths.len() > 0);
            }
            self.path_queue.remove(0);
            self.audio.clear();
            if self.path_queue.len() > 0 {
                let head = self.path_queue[0].clone();
                let level = self.audio.vol;
                self.audio.play_file(&head, level);
                append_tail(&mut self.audio, &self.path_queue);
            }
            let next = self.meta_manager.pop_next();
            self.data = match next {
                Some(d) => d,
                None => FileMetadata::new(),
            };
            proof {
                let rest = old(self)@.paths.skip(1);
                assert(path_views(self.path_queue@) =~= rest);
                assert(self@.paths =~= rest);
                assert(final(self)@ =~~= old(self)@.skipped());
                lemma_skipped_preserves_inv(old(self)@);
            }
        } else {
            proof {
                assert(old(self)@.paths.len() == 0);
            }
        }
    }

    /// End of track: the device finished the head source on its own and
    /// moved to the next, so both queues advance past the head and the next
    /// record, if any, goes on display. No device call is recorded; the
    /// device already acted.
    pub fn handle_track_end(&mut self)
        requires
            old(self)@.inv(),
        ensures
            (final(self)@ == old(self)@.track_ended()),
            final(self)@.inv(),
    {
        if !self.path_queue.is_empty() {
            self.path_queue.remove(0);
            self.audio.advance();
            let next = self.meta_manager.pop_next();
            self.data = match next {
                Some(d) => d,
                None => FileMetadata::new(),
            };
            proof {
                assert(path_views(self.path_queue@) =~= old(self)@.paths.skip(1));
                assert(self@.paths =~= old(self)@.paths.skip(1));
                assert(final(self)@ =~~= old(self)@.track_ended());
                lemma_track_ended_preserves_inv(old(self)@);
            }
        }
    }

    /// A full stop on the user's request: device cleared, queues emptied,
    /// display reset. Running it again changes nothing further the user
    /// could observe.
    pub fn handle_clear(&mut self)
        ensures
            (final(self)@ == old(self)@.stopped()),
            final(self)@.inv(),
    {
        self.audio.clear();
        self.path_queue.clear();
        self.meta_manager = MetadataQueue::new();
        self.data = FileMetadata::new();
        proof {
            assert(final(self)@ =~~= old(self)@.stopped());
        }
    }
}

/// In every consistent player state, the path queue and the metadata queue
/// have the same length and agree file by file, and the device holds
/// something exactly when the path queue is non-empty.
pub proof fn lemma_queues_aligned(v: AppView)
    requires
        v.inv(),
    ensures
        v.metas.len() == v.paths.len(),
        forall|i: int|
            0 <= i < v.paths.len() ==> (#[trigger] v.metas[i]).file_path == v.paths[i],
        v.sink.is_empty() <==> v.paths.len() == 0,
{
}

/// Clearing twice leaves the same player state as clearing once: an empty
/// device and empty queues. Only the log of pending device calls differs,
/// by one more clear call for the device to repeat.
pub proof fn lemma_clear_idempotent(v: AppView)
    ensures
        (v.stopped().stopped().player_state() == v.stopped().player_state()),
        v.stopped().paths.len() == 0,
        v.stopped().metas.len() == 0,
        v.stopped().sink.sources.len() == 0,
        v.stopped().sink.paused,
{
}

/// Appending to an empty player is play-now, there being nothing to append
/// to; three appends in a row queue the three tracks in order with the
/// first playing and the rest pending behind it, on the device as well.
pub proof fn lemma_append_ordering(v: AppView, a: MetaView, b: MetaView, c: MetaView)
    requires
        v.inv(),
        v.paths.len() == 0,
    ensures
        (v.pushed(SelectionView::Track(a)) == v.played(SelectionView::Track(a))),
        (v.pushed(SelectionView::Track(a)).paths == seq![a.file_path]),
        (v.pushed(SelectionView::Track(a)).pushed(SelectionView::Track(b)).pushed(
            SelectionView::Track(c),
        ).paths == seq![a.file_path, b.file_path, c.file_path]),
        (v.pushed(SelectionView::Track(a)).pushed(SelectionView::Track(b)).pushed(
            SelectionView::Track(c),
        ).metas == seq![a, b, c]),
        v.pushed(SelectionView::Track(a)).pushed(SelectionView::Track(b)).pushed(
            SelectionView::Track(c),
        ).data == a,
        v.pushed(SelectionView::Track(a)).pushed(SelectionView::Track(b)).pushed(
            SelectionView::Track(c),
        ).sink.paused == false,
        (v.pushed(SelectionView::Track(a)).pushed(SelectionView::Track(b)).pushed(
            SelectionView::Track(c),
        ).sink.sources == seq![a.file_path, b.file_path, c.file_path]),
{
    assert(v.pushed(SelectionView::Track(a)) =~~= v.played(SelectionView::Track(a)));
    let w1 = v.pushed(SelectionView::Track(a));
    let w2 = w1.pushed(SelectionView::Track(b));
    let w3 = w2.pushed(SelectionView::Track(c));
    assert(w1.paths =~= seq![a.file_path]);
    assert(w2.paths =~= seq![a.file_path, b.file_path]);
    assert(w3.paths =~= seq![a.file_path, b.file_path, c.file_path]);
    assert(w3.metas =~= seq![a, b, c]);
    assert(w3.sink.sources =~= seq![a.file_path, b.file_path, c.file_path]);
}

/// Skipping with a next track queued drops the head everywhere at once: the
/// next track is playing, its record is on display, and the rest keep their
/// order.
pub proof fn lemma_skip_advances(v: AppView)
    requires
        v.inv(),
        v.paths.len() >= 2,
    ensures
        (v.skipped().paths == v.paths.skip(1)),
        (v.skipped().metas == v.metas.skip(1)),
        v.skipped().data == v.metas[1],
        v.skipped().current == v.metas[1],
        (v.skipped().sink.sources == v.paths.skip(1)),
        v.skipped().sink.paused == false,
{
    let rest = v.paths.skip(1);
    lemma_appended_all_facts(
        v.sink.cleared().loaded(rest[0], v.sink.cleared().vol),
        rest.skip(1),
    );
    assert(seq![rest[0]] + rest.skip(1) =~= rest);
}

/// Play-now on a non-empty player puts the new track at the head, playing
/// immediately, with every prior entry still pending in its original
/// relative order, on the device as well.
pub proof fn lemma_play_now_reorders(v: AppView, c: MetaView)
    requires
        v.inv(),
        v.paths.len() >= 1,
    ensures
        (v.played(SelectionView::Track(c)).paths == seq![c.file_path] + v.paths),
        (v.played(SelectionView::Track(c)).metas == seq![c] + v.metas),
        v.played(SelectionView::Track(c)).data == c,
        v.played(SelectionView::Track(c)).current == c,
        (v.played(SelectionView::Track(c)).sink.sources == seq![c.file_path] + v.paths),
        v.played(SelectionView::Track(c)).sink.paused == false,
{
    let newpaths = seq![c.file_path] + v.paths;
    lemma_appended_all_facts(v.sink.loaded(newpaths[0], v.sink.vol), newpaths.skip(1));
    assert(seq![newpaths[0]] + newpaths.skip(1) =~= newpaths);
}

/// Skipping on an empty queue is a no-op: no state change, no error.
pub proof fn lemma_skip_empty_noop(v: AppView)
    requires
        v.paths.len() == 0,
    ensures
        v.skipped() == v,
{
}

/// A selection that is a directory, or a file that could not be opened or
/// decoded, changes nothing under play-now or append.
pub proof fn lemma_ignored_selection_noop(v: AppView, sel: SelectionView)
    requires
        !(sel is Track),
    ensures
        v.played(sel) == v,
        v.pushed(sel) == v,
{
}

} // verus!
