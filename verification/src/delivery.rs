//! Delivery of one item of the work list, as a machine of states: each
//! step takes the answer to the last request and gives the next request.

use crate::catalog::{CatalogId, EpisodeMetadata, FileCatalog, FileHandle, KeyMaterial, ShowInfo, TrackMetadata, WorkItem};
use crate::formats::{get_usable_file_id, linear_map_contents, preferred};
use crate::ident::{id_to_base62, is_id_text};
use crate::naming::{output_name, output_name_of};
use vstd::prelude::*;

verus! {

/// Length of the container header that precedes the audio in a decrypted
/// buffer.
pub const HEADER_LEN: usize = 161;

/// Milliseconds for which the scheduler is served between two looks at a
/// stream that the worker is reading.
pub const POLL_MILLIS: u64 = 100;

/// What the scheduler does while the worker reads a stream.
#[derive(Clone, Copy, Debug, PartialEq, Eq, Structural)]
pub enum Poll {
    /// Serve the session for this many milliseconds, then look again.
    Tick(u64),
    /// The worker is done: the buffer is the scheduler's.
    Collect,
}

/// Decides on the worker's flag: the buffer is taken once the read is
/// finished, and until then the scheduler is ticked without touching it.
pub fn poll(finished: bool) -> (r: Poll)
    ensures
        r == if finished {
            Poll::Collect
        } else {
            Poll::Tick(POLL_MILLIS)
        },
{
    if finished {
        Poll::Collect
    } else {
        Poll::Tick(POLL_MILLIS)
    }
}

/// How delivery is made and for which kind of file system names are made.
#[derive(Clone, Copy, Debug, PartialEq, Eq, Structural)]
pub struct Config {
    /// Audio goes to a helper process and not to a file.
    pub helper: bool,
    /// File names are made safe for Windows.
    pub windows: bool,
}

/// The failures that end the whole run.
#[derive(Clone, Copy, Debug, PartialEq, Eq, Structural)]
pub enum Failure {
    /// An alternative of an unavailable track could not be fetched.
    Alternative,
    /// No alternative of an unavailable track is available.
    NoAlternative,
    Artist,
    Show,
    Album,
    /// None of the preferred encodings is on offer.
    NoUsableFormat,
    Key,
    Stream,
    Decrypt,
    /// The decrypted buffer is shorter than the container header.
    ShortAudio,
    Write,
    Helper,
    /// An answer came that the pending request does not ask for.
    Unexpected,
}

/// How the delivery of one item ended.
#[derive(Clone, Copy, Debug, PartialEq, Eq, Structural)]
pub enum Outcome {
    Delivered,
    /// The file is there already: nothing was fetched.
    SkippedExists,
    /// The item's metadata could not be fetched: the run goes on.
    SkippedUnreachable,
    Fatal(Failure),
}

/// Where the name of an item's group comes from.
#[derive(Debug, PartialEq, Eq)]
pub enum Grouping {
    Known(String),
    /// The album, to be fetched when the name is needed.
    Album(CatalogId),
}

/// All that is known of an item once its names are resolved.
#[derive(Debug, PartialEq, Eq)]
pub struct Subject {
    /// The id under which the item is listed.
    pub listed: CatalogId,
    /// The id that is delivered: the one whose audio is fetched and that
    /// the helper is told. It differs from `listed` where an alternative
    /// took the place of an unavailable track.
    pub id: CatalogId,
    pub title: String,
    /// The artists' names in the track's order, or the show's publisher.
    pub origins: Vec<String>,
    pub group: Grouping,
    pub files: FileCatalog,
}

/// What the driver is asked to do next.
#[derive(Debug, PartialEq, Eq)]
pub enum Action {
    FetchTrack(CatalogId),
    FetchEpisode(CatalogId),
    FetchArtist(CatalogId),
    FetchAlbum(CatalogId),
    FetchShow(CatalogId),
    /// Tell whether a file of this name exists.
    ProbeFile(String),
    RequestKey { item: CatalogId, file: FileHandle },
    ReadStream { file: FileHandle },
    Decrypt { key: KeyMaterial, data: Vec<u8> },
    WriteFile { name: String, data: Vec<u8> },
    /// Run the helper with these arguments and this input.
    RunHelper { args: Vec<String>, data: Vec<u8> },
    Finish(Outcome),
}

/// The answer to a request. `None` and `false` report a failure.
#[derive(Debug, PartialEq, Eq)]
pub enum Event {
    Track(Option<TrackMetadata>),
    Episode(Option<EpisodeMetadata>),
    /// The name of an artist or of an album.
    Name(Option<String>),
    Show(Option<ShowInfo>),
    Exists(bool),
    Key(Option<KeyMaterial>),
    /// An encrypted stream or a decrypted buffer.
    Bytes(Option<Vec<u8>>),
    /// A file was written, or the helper ran and left with success.
    Completed(bool),
}

/// The state of one item's delivery: what is known, and which answer is
/// awaited.
#[derive(Debug, PartialEq, Eq)]
pub enum State {
    Track { listed: CatalogId, album: Option<String> },
    Alternative { listed: CatalogId, album: Option<String>, track: TrackMetadata, next: usize },
    Artist { listed: CatalogId, album: Option<String>, track: TrackMetadata, names: Vec<String> },
    Episode { listed: CatalogId, show: Option<ShowInfo> },
    Show { listed: CatalogId, episode: EpisodeMetadata },
    Probe { subject: Subject, name: String },
    Key { subject: Subject, name: String, file: FileHandle },
    Stream { subject: Subject, name: String, key: KeyMaterial },
    Plain { subject: Subject, name: String },
    Reprobe { name: String, audio: Vec<u8> },
    Album { subject: Subject, audio: Vec<u8> },
    Closing { helper: bool },
    Done,
}

/// Whether the run goes on to the next item after `outcome`.
pub open spec fn goes_on(outcome: Outcome) -> bool {
    !(outcome is Fatal)
}

/// Tells whether the run goes on to the next item: it does unless the
/// item failed.
pub fn run_continues(outcome: Outcome) -> (r: bool)
    ensures
        r == goes_on(outcome),
{
    match outcome {
        Outcome::Fatal(_) => false,
        _ => true,
    }
}

/// The item has reached an end with `outcome`.
pub open spec fn ends(outcome: Outcome, next: State, action: Action) -> bool {
    next == State::Done && action == Action::Finish(outcome)
}

/// `subject` is what a track gives, with `names` for its artists.
pub open spec fn track_subject(listed: CatalogId, album: Option<String>, track: TrackMetadata, names: Seq<String>, subject: Subject) -> bool {
    &&& subject.listed == listed
    &&& subject.id == track.id
    &&& subject.title == track.name
    &&& subject.origins@ == names
    &&& subject.group == match album {
        Some(name) => Grouping::Known(name),
        None => Grouping::Album(track.album),
    }
    &&& subject.files == track.files
}

/// `subject` is what an episode of the show `info` gives.
pub open spec fn episode_subject(listed: CatalogId, episode: EpisodeMetadata, info: ShowInfo, subject: Subject) -> bool {
    &&& subject.listed == listed
    &&& subject.id == episode.id
    &&& subject.title == episode.name
    &&& subject.origins@ == seq![info.publisher]
    &&& subject.group == Grouping::Known(info.name)
    &&& subject.files == episode.files
}

/// The file of `subject` is named and the driver is asked whether it exists.
pub open spec fn probes(subject: Subject, cfg: Config, next: State, action: Action) -> bool {
    &&& next matches State::Probe { subject: s, name }
    &&& s == subject
    &&& name@ == output_name_of(subject.origins@, subject.title@, cfg.windows)
    &&& action == Action::ProbeFile(name)
}

/// With `names` known for the first artists of `track`: the next artist is
/// asked for, or, all being known, the file is probed.
pub open spec fn credits(listed: CatalogId, album: Option<String>, track: TrackMetadata, names: Seq<String>, cfg: Config, next: State, action: Action) -> bool {
    if names.len() < track.artists@.len() {
        &&& next matches State::Artist { listed: l, album: a, track: t, names: n }
        &&& l == listed && a == album && t == track && n@ == names
        &&& action == Action::FetchArtist(track.artists@[names.len() as int])
    } else {
        exists|subject: Subject| #[trigger] track_subject(listed, album, track, names, subject)
            && probes(subject, cfg, next, action)
    }
}

/// The helper's arguments: the delivered id as text, the title, the group's
/// name, then the origins.
pub open spec fn helper_args(subject: Subject, group: String, args: Seq<String>) -> bool {
    &&& args.len() == 3 + subject.origins@.len()
    &&& is_id_text(args[0]@, subject.id)
    &&& args[1] == subject.title
    &&& args[2] == group
    &&& forall|i: int| 0 <= i < subject.origins@.len() ==> #[trigger] args[3 + i] == subject.origins@[i]
}

/// The helper is run for `subject` on `audio`.
pub open spec fn runs_helper(subject: Subject, group: String, audio: Seq<u8>, next: State, action: Action) -> bool {
    &&& next == (State::Closing { helper: true })
    &&& action matches Action::RunHelper { args, data }
    &&& helper_args(subject, group, args@)
    &&& data@ == audio
}

/// A decrypted buffer without its container header; nothing where the
/// buffer is shorter than the header.
pub open spec fn stripped(plain: Seq<u8>) -> Option<Seq<u8>> {
    if plain.len() >= HEADER_LEN {
        Some(plain.skip(HEADER_LEN as int))
    } else {
        None
    }
}

/// What follows decryption: the audio is handed to the file or the helper.
pub open spec fn hands_over(subject: Subject, name: String, plain: Seq<u8>, cfg: Config, next: State, action: Action) -> bool {
    match stripped(plain) {
        None => ends(Outcome::Fatal(Failure::ShortAudio), next, action),
        Some(audio) => if !cfg.helper {
            &&& next matches State::Reprobe { name: n, audio: a }
            &&& n == name && a@ == audio
            &&& action == Action::ProbeFile(name)
        } else {
            match subject.group {
                Grouping::Known(group) => runs_helper(subject, group, audio, next, action),
                Grouping::Album(album) => {
                    &&& next matches State::Album { subject: s, audio: a }
                    &&& s == subject && a@ == audio
                    &&& action == Action::FetchAlbum(album)
                },
            }
        },
    }
}

/// The step from `state` on `event` to `next`, asking for `action`.
pub open spec fn transition(state: State, event: Event, cfg: Config, next: State, action: Action) -> bool {
    match (state, event) {
        (State::Track { listed, album }, Event::Track(None)) => ends(Outcome::SkippedUnreachable, next, action),
        (State::Track { listed, album }, Event::Track(Some(track))) => {
            if track.available {
                credits(listed, album, track, Seq::empty(), cfg, next, action)
            } else if track.alternatives@.len() == 0 {
                ends(Outcome::Fatal(Failure::NoAlternative), next, action)
            } else {
                &&& next == (State::Alternative { listed, album, track, next: 0 })
                &&& action == Action::FetchTrack(track.alternatives@[0])
            }
        },
        (State::Alternative { listed, album, track, next: tried }, Event::Track(None)) => ends(
            Outcome::Fatal(Failure::Alternative),
            next,
            action,
        ),
        (State::Alternative { listed, album, track, next: tried }, Event::Track(Some(other))) => {
            if other.available {
                credits(listed, album, other, Seq::empty(), cfg, next, action)
            } else if tried + 1 < track.alternatives@.len() {
                &&& next == (State::Alternative { listed, album, track, next: (tried + 1) as usize })
                &&& action == Action::FetchTrack(track.alternatives@[tried + 1])
            } else {
                ends(Outcome::Fatal(Failure::NoAlternative), next, action)
            }
        },
        (State::Artist { listed, album, track, names }, Event::Name(None)) => ends(
            Outcome::Fatal(Failure::Artist),
            next,
            action,
        ),
        (State::Artist { listed, album, track, names }, Event::Name(Some(name))) => credits(
            listed,
            album,
            track,
            names@.push(name),
            cfg,
            next,
            action,
        ),
        (State::Episode { listed, show }, Event::Episode(None)) => ends(Outcome::SkippedUnreachable, next, action),
        (State::Episode { listed, show: None }, Event::Episode(Some(episode))) => {
            &&& next == (State::Show { listed, episode })
            &&& action == Action::FetchShow(episode.show)
        },
        (State::Episode { listed, show: Some(info) }, Event::Episode(Some(episode))) => {
            exists|subject: Subject| #[trigger] episode_subject(listed, episode, info, subject)
                && probes(subject, cfg, next, action)
        },
        (State::Show { listed, episode }, Event::Show(None)) => ends(Outcome::Fatal(Failure::Show), next, action),
        (State::Show { listed, episode }, Event::Show(Some(info))) => {
            exists|subject: Subject| #[trigger] episode_subject(listed, episode, info, subject)
                && probes(subject, cfg, next, action)
        },
        (State::Probe { subject, name }, Event::Exists(true)) => ends(Outcome::SkippedExists, next, action),
        (State::Probe { subject, name }, Event::Exists(false)) => {
            match preferred(linear_map_contents(subject.files)) {
                None => ends(Outcome::Fatal(Failure::NoUsableFormat), next, action),
                Some(file) => {
                    &&& next == (State::Key { subject, name, file })
                    &&& action == (Action::RequestKey { item: subject.id, file })
                },
            }
        },
        (State::Key { subject, name, file }, Event::Key(None)) => ends(Outcome::Fatal(Failure::Key), next, action),
        (State::Key { subject, name, file }, Event::Key(Some(key))) => {
            &&& next == (State::Stream { subject, name, key })
            &&& action == (Action::ReadStream { file })
        },
        (State::Stream { subject, name, key }, Event::Bytes(None)) => ends(
            Outcome::Fatal(Failure::Stream),
            next,
            action,
        ),
        (State::Stream { subject, name, key }, Event::Bytes(Some(data))) => {
            &&& next == (State::Plain { subject, name })
            &&& action == (Action::Decrypt { key, data })
        },
        (State::Plain { subject, name }, Event::Bytes(None)) => ends(Outcome::Fatal(Failure::Decrypt), next, action),
        (State::Plain { subject, name }, Event::Bytes(Some(plain))) => hands_over(
            subject,
            name,
            plain@,
            cfg,
            next,
            action,
        ),
        (State::Reprobe { name, audio }, Event::Exists(true)) => ends(Outcome::SkippedExists, next, action),
        (State::Reprobe { name, audio }, Event::Exists(false)) => {
            &&& next == (State::Closing { helper: false })
            &&& action == (Action::WriteFile { name, data: audio })
        },
        (State::Album { subject, audio }, Event::Name(None)) => ends(Outcome::Fatal(Failure::Album), next, action),
        (State::Album { subject, audio }, Event::Name(Some(group))) => runs_helper(
            subject,
            group,
            audio@,
            next,
            action,
        ),
        (State::Closing { helper }, Event::Completed(true)) => ends(Outcome::Delivered, next, action),
        (State::Closing { helper }, Event::Completed(false)) => ends(
            Outcome::Fatal(if helper { Failure::Helper } else { Failure::Write }),
            next,
            action,
        ),
        _ => ends(Outcome::Fatal(Failure::Unexpected), next, action),
    }
}

/// The first request for an item of the work list: its own metadata.
pub open spec fn opening(id: CatalogId, item: WorkItem) -> (State, Action) {
    match item {
        WorkItem::Track { album } => (State::Track { listed: id, album }, Action::FetchTrack(id)),
        WorkItem::Episode { show } => (State::Episode { listed: id, show }, Action::FetchEpisode(id)),
    }
}

/// Starts the delivery of an item.
pub fn begin(id: CatalogId, item: WorkItem) -> (r: (State, Action))
    ensures
        r == opening(id, item),
{
    match item {
        WorkItem::Track { album } => (State::Track { listed: id, album }, Action::FetchTrack(id)),
        WorkItem::Episode { show } => (State::Episode { listed: id, show }, Action::FetchEpisode(id)),
    }
}

/// Removes the container header from a decrypted buffer.
pub fn strip_header(plain: &Vec<u8>) -> (r: Option<Vec<u8>>)
    ensures
        match stripped(plain@) {
            Some(audio) => r.is_some() && r.unwrap()@ == audio,
            None => r.is_none(),
        },
{
    if plain.len() < HEADER_LEN {
        return None;
    }
    let mut audio: Vec<u8> = Vec::new();
    let mut i: usize = HEADER_LEN;
    while i < plain.len()
        invariant
            HEADER_LEN <= i <= plain@.len(),
            audio@ == plain@.subrange(HEADER_LEN as int, i as int),
        decreases plain@.len() - i,
    {
        audio.push(plain[i]);
        proof {
            assert(audio@ =~= plain@.subrange(HEADER_LEN as int, i + 1));
        }
        i += 1;
    }
    proof {
        assert(audio@ =~= plain@.skip(HEADER_LEN as int));
    }
    Some(audio)
}

fn finish(outcome: Outcome) -> (r: (State, Action))
    ensures
        ends(outcome, r.0, r.1),
{
    (State::Done, Action::Finish(outcome))
}

fn probe(subject: Subject, cfg: Config) -> (r: (State, Action))
    ensures
        probes(subject, cfg, r.0, r.1),
{
    let name = output_name(&subject.origins, subject.title.as_str(), cfg.windows);
    let asked = name.clone();
    (State::Probe { subject, name }, Action::ProbeFile(asked))
}

fn credit(listed: CatalogId, album: Option<String>, track: TrackMetadata, names: Vec<String>, cfg: Config) -> (r: (State, Action))
    ensures
        credits(listed, album, track, names@, cfg, r.0, r.1),
{
    if names.len() < track.artists.len() {
        let artist = track.artists[names.len()];
        (State::Artist { listed, album, track, names }, Action::FetchArtist(artist))
    } else {
        let group = match album {
            Some(name) => Grouping::Known(name),
            None => Grouping::Album(track.album),
        };
        let subject = Subject { listed, id: track.id, title: track.name, origins: names, group, files: track.files };
        assert(track_subject(listed, album, track, names@, subject));
        probe(subject, cfg)
    }
}

fn present(listed: CatalogId, episode: EpisodeMetadata, info: ShowInfo, cfg: Config) -> (r: (State, Action))
    ensures
        exists|subject: Subject| #[trigger] episode_subject(listed, episode, info, subject)
            && probes(subject, cfg, r.0, r.1),
{
    let mut origins: Vec<String> = Vec::new();
    origins.push(info.publisher);
    let subject = Subject {
        listed,
        id: episode.id,
        title: episode.name,
        origins,
        group: Grouping::Known(info.name),
        files: episode.files,
    };
    assert(subject.origins@ =~= seq![info.publisher]);
    assert(episode_subject(listed, episode, info, subject));
    probe(subject, cfg)
}

fn run_helper(subject: Subject, group: String, audio: Vec<u8>) -> (r: (State, Action))
    ensures
        runs_helper(subject, group, audio@, r.0, r.1),
{
    let mut args: Vec<String> = Vec::new();
    args.push(id_to_base62(subject.id));
    args.push(subject.title.clone());
    args.push(group);
    let mut i: usize = 0;
    while i < subject.origins.len()
        invariant
            0 <= i <= subject.origins@.len(),
            args@.len() == 3 + i,
            is_id_text(args@[0]@, subject.id),
            args@[1] == subject.title,
            args@[2] == group,
            forall|j: int| 0 <= j < i ==> #[trigger] args@[3 + j] == subject.origins@[j],
        decreases subject.origins@.len() - i,
    {
        args.push(subject.origins[i].clone());
        i += 1;
    }
    (State::Closing { helper: true }, Action::RunHelper { args, data: audio })
}

fn hand_over(subject: Subject, name: String, plain: Vec<u8>, cfg: Config) -> (r: (State, Action))
    ensures
        hands_over(subject, name, plain@, cfg, r.0, r.1),
{
    match strip_header(&plain) {
        None => finish(Outcome::Fatal(Failure::ShortAudio)),
        Some(audio) => {
            if !cfg.helper {
                let asked = name.clone();
                (State::Reprobe { name, audio }, Action::ProbeFile(asked))
            } else {
                match subject.group {
                    Grouping::Known(ref known) => {
                        let group = known.clone();
                        run_helper(subject, group, audio)
                    },
                    Grouping::Album(album) => (State::Album { subject, audio }, Action::FetchAlbum(album)),
                }
            }
        },
    }
}

/// Takes the answer to the pending request and gives the next state and
/// request. An answer of the wrong kind, or any answer once the item is
/// done, ends the item as a failure.
pub fn advance(state: State, event: Event, cfg: Config) -> (r: (State, Action))
    ensures
        transition(state, event, cfg, r.0, r.1),
{
    match (state, event) {
        (State::Track { listed, album }, Event::Track(None)) => finish(Outcome::SkippedUnreachable),
        (State::Track { listed, album }, Event::Track(Some(track))) => {
            if track.available {
                credit(listed, album, track, Vec::new(), cfg)
            } else if track.alternatives.len() == 0 {
                finish(Outcome::Fatal(Failure::NoAlternative))
            } else {
                let first = track.alternatives[0];
                (State::Alternative { listed, album, track, next: 0 }, Action::FetchTrack(first))
            }
        },
        (State::Alternative { listed, album, track, next }, Event::Track(None)) => finish(
            Outcome::Fatal(Failure::Alternative),
        ),
        (State::Alternative { listed, album, track, next }, Event::Track(Some(other))) => {
            let count = track.alternatives.len();
            if other.available {
                credit(listed, album, other, Vec::new(), cfg)
            } else if count > 0 && next < count - 1 {
                let id = track.alternatives[next + 1];
                (State::Alternative { listed, album, track, next: next + 1 }, Action::FetchTrack(id))
            } else {
                finish(Outcome::Fatal(Failure::NoAlternative))
            }
        },
        (State::Artist { listed, album, track, names }, Event::Name(None)) => finish(
            Outcome::Fatal(Failure::Artist),
        ),
        (State::Artist { listed, album, track, names }, Event::Name(Some(name))) => {
            let mut names = names;
            names.push(name);
            credit(listed, album, track, names, cfg)
        },
        (State::Episode { listed, show }, Event::Episode(None)) => finish(Outcome::SkippedUnreachable),
        (State::Episode { listed, show: None }, Event::Episode(Some(episode))) => {
            let show = episode.show;
            (State::Show { listed, episode }, Action::FetchShow(show))
        },
        (State::Episode { listed, show: Some(info) }, Event::Episode(Some(episode))) => present(
            listed,
            episode,
            info,
            cfg,
        ),
        (State::Show { listed, episode }, Event::Show(None)) => finish(Outcome::Fatal(Failure::Show)),
        (State::Show { listed, episode }, Event::Show(Some(info))) => present(listed, episode, info, cfg),
        (State::Probe { subject, name }, Event::Exists(true)) => finish(Outcome::SkippedExists),
        (State::Probe { subject, name }, Event::Exists(false)) => {
            match get_usable_file_id(&subject.files) {
                None => finish(Outcome::Fatal(Failure::NoUsableFormat)),
                Some(file) => {
                    let item = subject.id;
                    (State::Key { subject, name, file }, Action::RequestKey { item, file })
                },
            }
        },
        (State::Key { subject, name, file }, Event::Key(None)) => finish(Outcome::Fatal(Failure::Key)),
        (State::Key { subject, name, file }, Event::Key(Some(key))) => (
            State::Stream { subject, name, key },
            Action::ReadStream { file },
        ),
        (State::Stream { subject, name, key }, Event::Bytes(None)) => finish(Outcome::Fatal(Failure::Stream)),
        (State::Stream { subject, name, key }, Event::Bytes(Some(data))) => (
            State::Plain { subject, name },
            Action::Decrypt { key, data },
        ),
        (State::Plain { subject, name }, Event::Bytes(None)) => finish(Outcome::Fatal(Failure::Decrypt)),
        (State::Plain { subject, name }, Event::Bytes(Some(plain))) => hand_over(subject, name, plain, cfg),
        (State::Reprobe { name, audio }, Event::Exists(true)) => finish(Outcome::SkippedExists),
        (State::Reprobe { name, audio }, Event::Exists(false)) => (
            State::Closing { helper: false },
            Action::WriteFile { name, data: audio },
        ),
        (State::Album { subject, audio }, Event::Name(None)) => finish(Outcome::Fatal(Failure::Album)),
        (State::Album { subject, audio }, Event::Name(Some(group))) => run_helper(subject, group, audio),
        (State::Closing { helper }, Event::Completed(true)) => finish(Outcome::Delivered),
        (State::Closing { helper }, Event::Completed(false)) => finish(
            Outcome::Fatal(if helper { Failure::Helper } else { Failure::Write }),
        ),
        _ => finish(Outcome::Fatal(Failure::Unexpected)),
    }
}

/// Where the file of an item is there already the item ends at once,
/// as handled: no key, stream or decryption is asked for, and the run
/// goes on.
pub proof fn lemma_existing_file_ends_item(subject: Subject, name: String, cfg: Config, next: State, action: Action)
    requires
        transition(State::Probe { subject, name }, Event::Exists(true), cfg, next, action),
    ensures
        next == State::Done,
        action == Action::Finish(Outcome::SkippedExists),
        goes_on(Outcome::SkippedExists),
{
}

/// The states of a search through the alternatives of `track`: the one
/// at `j` awaits the alternative at `j`.
pub open spec fn searching(listed: CatalogId, album: Option<String>, track: TrackMetadata, j: int) -> State {
    State::Alternative { listed, album, track, next: j as usize }
}

/// A search through the alternatives of an unavailable track asks for
/// them in their listed order and takes the first that is available: the
/// item goes on with that alternative in the track's place. `answers`
/// are the alternatives as the catalog described them, all unavailable
/// but the last; `states` and `actions` are a run of the machine on them.
pub proof fn lemma_first_available_alternative(
    listed: CatalogId,
    album: Option<String>,
    track: TrackMetadata,
    answers: Seq<TrackMetadata>,
    cfg: Config,
    states: Seq<State>,
    actions: Seq<Action>,
)
    requires
        1 <= answers.len() <= track.alternatives@.len(),
        track.alternatives@.len() <= usize::MAX,
        forall|j: int| 0 <= j < answers.len() - 1 ==> !(#[trigger] answers[j]).available,
        answers.last().available,
        states.len() == answers.len() + 1,
        actions.len() == answers.len(),
        states[0] == searching(listed, album, track, 0),
        forall|j: int| 0 <= j < answers.len() ==> transition(
            #[trigger] states[j],
            Event::Track(Some(answers[j])),
            cfg,
            states[j + 1],
            actions[j],
        ),
    ensures
        forall|j: int| 0 <= j < answers.len() - 1 ==> #[trigger] actions[j] == Action::FetchTrack(
            track.alternatives@[j + 1],
        ),
        credits(listed, album, answers.last(), Seq::empty(), cfg, states.last(), actions.last()),
{
    lemma_search_prefix(listed, album, track, answers, cfg, states, actions, answers.len() - 1);
    let k = answers.len() - 1;
    assert(transition(states[k], Event::Track(Some(answers[k])), cfg, states[k + 1], actions[k]));
}

proof fn lemma_search_prefix(
    listed: CatalogId,
    album: Option<String>,
    track: TrackMetadata,
    answers: Seq<TrackMetadata>,
    cfg: Config,
    states: Seq<State>,
    actions: Seq<Action>,
    n: int,
)
    requires
        1 <= answers.len() <= track.alternatives@.len(),
        track.alternatives@.len() <= usize::MAX,
        forall|j: int| 0 <= j < answers.len() - 1 ==> !(#[trigger] answers[j]).available,
        states.len() == answers.len() + 1,
        actions.len() == answers.len(),
        states[0] == searching(listed, album, track, 0),
        forall|j: int| 0 <= j < answers.len() ==> transition(
            #[trigger] states[j],
            Event::Track(Some(answers[j])),
            cfg,
            states[j + 1],
            actions[j],
        ),
        0 <= n <= answers.len() - 1,
    ensures
        states[n] == searching(listed, album, track, n),
        forall|j: int| 0 <= j < n ==> #[trigger] actions[j] == Action::FetchTrack(track.alternatives@[j + 1]),
    decreases n,
{
    if n > 0 {
        lemma_search_prefix(listed, album, track, answers, cfg, states, actions, n - 1);
        let j = n - 1;
        assert(!answers[j].available);
        assert(transition(states[j], Event::Track(Some(answers[j])), cfg, states[j + 1], actions[j]));
    }
}

/// The helper is told the id of the track that is delivered: where an
/// alternative took the place of the listed track, the alternative's.
pub proof fn lemma_helper_is_told_delivered_id(
    listed: CatalogId,
    album: Option<String>,
    track: TrackMetadata,
    names: Seq<String>,
    subject: Subject,
    group: String,
    audio: Seq<u8>,
    next: State,
    action: Action,
)
    requires
        track_subject(listed, album, track, names, subject),
        runs_helper(subject, group, audio, next, action),
    ensures
        action matches Action::RunHelper { args, data } && is_id_text(args@[0]@, track.id) && args@[1]
            == track.name,
{
}

/// What is written to a file or piped to a helper is the decrypted buffer
/// without its first `HEADER_LEN` bytes, for tracks and episodes alike.
/// `first` and `asked` follow the decrypted buffer, `second` and `then`
/// follow the answer to `asked`.
pub proof fn lemma_delivery_excludes_header(
    subject: Subject,
    name: String,
    plain: Vec<u8>,
    cfg: Config,
    first: State,
    asked: Action,
    answer: Event,
    second: State,
    then: Action,
)
    requires
        transition(State::Plain { subject, name }, Event::Bytes(Some(plain)), cfg, first, asked),
        transition(first, answer, cfg, second, then),
    ensures
        !(asked is WriteFile),
        asked matches Action::RunHelper { args, data } ==> plain@.len() >= HEADER_LEN && data@ == plain@.skip(
            HEADER_LEN as int,
        ),
        then matches Action::WriteFile { name, data } ==> plain@.len() >= HEADER_LEN && data@ == plain@.skip(
            HEADER_LEN as int,
        ),
        then matches Action::RunHelper { args, data } ==> plain@.len() >= HEADER_LEN && data@ == plain@.skip(
            HEADER_LEN as int,
        ),
{
}

} // verus!
