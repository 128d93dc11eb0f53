//! The music module's dealings with a media player: the playback state shown
//! on the control buttons, what the module does with each report of the
//! player, the player command behind each button, and the watch for the
//! preferred player.
use vstd::prelude::*;

use crate::activity::ActivityMap;
use crate::music::LoopStatus;
use crate::time::Duration;

verus! {

/// Whether a player plays.
#[derive(Clone, Copy, Debug, PartialEq, Eq, Structural)]
pub enum PlaybackStatus {
    Playing,
    Paused,
    Stopped,
}

/// The playback state that the control buttons show.
#[derive(Clone, Copy, Debug, PartialEq, Eq, Structural)]
pub struct UIPlaybackStatus {
    pub playback_status: PlaybackStatus,
    pub can_playpause: bool,
    pub can_go_next: bool,
    pub can_go_previous: bool,
    pub can_loop: bool,
    pub can_shuffle: bool,
    pub shuffle: bool,
    pub loop_status: LoopStatus,
}

impl UIPlaybackStatus {
    /// Before any player has reported: stopped, every button disabled.
    pub open spec fn spec_default() -> UIPlaybackStatus {
        UIPlaybackStatus {
            playback_status: PlaybackStatus::Stopped,
            can_playpause: false,
            can_go_next: false,
            can_go_previous: false,
            can_loop: false,
            can_shuffle: false,
            shuffle: false,
            loop_status: LoopStatus::NoLoop,
        }
    }

    /// After the player has quit: stopped, every button disabled.
    pub open spec fn spec_player_quit() -> UIPlaybackStatus {
        UIPlaybackStatus {
            playback_status: PlaybackStatus::Stopped,
            can_playpause: false,
            can_go_next: false,
            can_go_previous: false,
            can_loop: false,
            can_shuffle: false,
            shuffle: true,
            loop_status: LoopStatus::Playlist,
        }
    }

    /// The state once the player has quit.
    pub fn player_quit() -> (s: UIPlaybackStatus)
        ensures
            s == Self::spec_player_quit(),
    {
        UIPlaybackStatus {
            playback_status: PlaybackStatus::Stopped,
            can_playpause: false,
            can_go_next: false,
            can_go_previous: false,
            can_loop: false,
            can_shuffle: false,
            shuffle: true,
            loop_status: LoopStatus::Playlist,
        }
    }
}

impl Default for UIPlaybackStatus {
    fn default() -> (s: Self)
        ensures
            s == Self::spec_default(),
    {
        UIPlaybackStatus {
            playback_status: PlaybackStatus::Stopped,
            can_playpause: false,
            can_go_next: false,
            can_go_previous: false,
            can_loop: false,
            can_shuffle: false,
            shuffle: false,
            loop_status: LoopStatus::NoLoop,
        }
    }
}

/// What one control button shows: the icon it is given, where it is given
/// one, and whether it can be pressed.
#[derive(Clone, Copy, Debug, PartialEq, Eq)]
pub struct ButtonState {
    pub icon: Option<&'static str>,
    pub sensitive: bool,
}

/// What the row of control buttons shows.
#[derive(Clone, Copy, Debug, PartialEq, Eq)]
pub struct ControlsState {
    pub shuffle: ButtonState,
    pub previous: ButtonState,
    pub play_pause: ButtonState,
    pub next: ButtonState,
    pub repeat: ButtonState,
}

/// The icon of a button, as text.
pub open spec fn spec_icon(b: ButtonState) -> Option<Seq<char>> {
    match b.icon {
        Some(i) => Some(i@),
        None => None,
    }
}

/// The shuffle button's icon.
pub open spec fn spec_shuffle_icon(s: UIPlaybackStatus) -> Seq<char> {
    if s.can_shuffle && !s.shuffle {
        "media-playlist-consecutive-symbolic"@
    } else {
        "media-playlist-shuffle-symbolic"@
    }
}

/// The play/pause button's icon.
pub open spec fn spec_play_pause_icon(s: UIPlaybackStatus) -> Seq<char> {
    if s.can_playpause && s.playback_status == PlaybackStatus::Playing {
        "media-playback-pause-symbolic"@
    } else if s.can_playpause && s.playback_status == PlaybackStatus::Paused {
        "media-playback-start-symbolic"@
    } else {
        "media-playback-stop-symbolic"@
    }
}

/// The repeat button's icon.
pub open spec fn spec_repeat_icon(s: UIPlaybackStatus) -> Seq<char> {
    if s.can_loop && s.loop_status == LoopStatus::NoLoop {
        "mail-forward"@
    } else if s.can_loop && s.loop_status == LoopStatus::Track {
        "media-playlist-repeat-song-symbolic"@
    } else {
        "media-playlist-repeat-symbolic"@
    }
}

/// The icons' names are told apart by their lengths.
proof fn lemma_icon_lengths()
    ensures
        "media-playlist-consecutive-symbolic"@.len() == 35,
        "media-playlist-shuffle-symbolic"@.len() == 31,
        "media-playback-pause-symbolic"@.len() == 29,
        "media-playback-start-symbolic"@.len() == 29,
        "media-playback-stop-symbolic"@.len() == 28,
        "mail-forward"@.len() == 12,
        "media-playlist-repeat-song-symbolic"@.len() == 35,
        "media-playlist-repeat-symbolic"@.len() == 30,
{
    reveal_strlit("media-playlist-consecutive-symbolic");
    reveal_strlit("media-playlist-shuffle-symbolic");
    reveal_strlit("media-playback-pause-symbolic");
    reveal_strlit("media-playback-start-symbolic");
    reveal_strlit("media-playback-stop-symbolic");
    reveal_strlit("mail-forward");
    reveal_strlit("media-playlist-repeat-song-symbolic");
    reveal_strlit("media-playlist-repeat-symbolic");
}

/// What each button shows. The repeat button shows "mail-forward" exactly
/// when looping is allowed and the player does not repeat; repeating a track
/// shows the song icon, repeating the playlist, and looping not allowed,
/// show the plain repeat icon. The shuffle button shows the consecutive icon
/// exactly when shuffling is allowed and off. The play/pause button shows
/// pause exactly while playing, start exactly while paused, and stop
/// otherwise; when the player does not allow it, it always shows stop.
pub proof fn lemma_control_icons(s: UIPlaybackStatus)
    ensures
        (spec_repeat_icon(s) == "mail-forward"@) <==> (s.can_loop && s.loop_status
            == LoopStatus::NoLoop),
        s.can_loop && s.loop_status == LoopStatus::Track ==> spec_repeat_icon(s)
            == "media-playlist-repeat-song-symbolic"@,
        s.can_loop && s.loop_status == LoopStatus::Playlist ==> spec_repeat_icon(s)
            == "media-playlist-repeat-symbolic"@,
        !s.can_loop ==> spec_repeat_icon(s) == "media-playlist-repeat-symbolic"@,
        (spec_shuffle_icon(s) == "media-playlist-consecutive-symbolic"@) <==> (s.can_shuffle
            && !s.shuffle),
        !(s.can_shuffle && !s.shuffle) ==> spec_shuffle_icon(s) == "media-playlist-shuffle-symbolic"@,
        (spec_play_pause_icon(s) == "media-playback-pause-symbolic"@) <==> (s.can_playpause
            && s.playback_status == PlaybackStatus::Playing),
        s.can_playpause && s.playback_status == PlaybackStatus::Paused ==> spec_play_pause_icon(s)
            == "media-playback-start-symbolic"@,
        !s.can_playpause || s.playback_status == PlaybackStatus::Stopped ==> spec_play_pause_icon(
            s,
        ) == "media-playback-stop-symbolic"@,
{
    lemma_icon_lengths();
    reveal_strlit("media-playback-pause-symbolic");
    reveal_strlit("media-playback-start-symbolic");
    reveal_strlit("media-playlist-consecutive-symbolic");
    reveal_strlit("media-playlist-repeat-song-symbolic");
    assert("media-playback-pause-symbolic"@[15] != "media-playback-start-symbolic"@[15]);
}

/// The control buttons for a playback state. A button can be pressed
/// exactly when the player allows its action; the previous and next
/// buttons keep their icons.
pub fn controls_state(s: &UIPlaybackStatus) -> (c: ControlsState)
    ensures
        spec_icon(c.shuffle) == Some(spec_shuffle_icon(*s)),
        c.shuffle.sensitive == s.can_shuffle,
        c.previous.icon is None,
        c.previous.sensitive == s.can_go_previous,
        spec_icon(c.play_pause) == Some(spec_play_pause_icon(*s)),
        c.play_pause.sensitive == s.can_playpause,
        c.next.icon is None,
        c.next.sensitive == s.can_go_next,
        spec_icon(c.repeat) == Some(spec_repeat_icon(*s)),
        c.repeat.sensitive == s.can_loop,
{
    let shuffle_icon: &'static str = if s.can_shuffle && !s.shuffle {
        "media-playlist-consecutive-symbolic"
    } else {
        "media-playlist-shuffle-symbolic"
    };
    let play_pause_icon: &'static str = if s.can_playpause {
        match s.playback_status {
            PlaybackStatus::Playing => "media-playback-pause-symbolic",
            PlaybackStatus::Paused => "media-playback-start-symbolic",
            PlaybackStatus::Stopped => "media-playback-stop-symbolic",
        }
    } else {
        "media-playback-stop-symbolic"
    };
    let repeat_icon: &'static str = if s.can_loop {
        match s.loop_status {
            LoopStatus::NoLoop => "mail-forward",
            LoopStatus::Track => "media-playlist-repeat-song-symbolic",
            LoopStatus::Playlist => "media-playlist-repeat-symbolic",
        }
    } else {
        "media-playlist-repeat-symbolic"
    };
    ControlsState {
        shuffle: ButtonState { icon: Some(shuffle_icon), sensitive: s.can_shuffle },
        previous: ButtonState { icon: None, sensitive: s.can_go_previous },
        play_pause: ButtonState { icon: Some(play_pause_icon), sensitive: s.can_playpause },
        next: ButtonState { icon: None, sensitive: s.can_go_next },
        repeat: ButtonState { icon: Some(repeat_icon), sensitive: s.can_loop },
    }
}

/// A player's report that the module reads: position and length of the
/// song, its data, and what the player allows.
#[derive(Clone, Debug)]
pub struct PlayerProgress {
    pub position: Duration,
    /// The song's length, where the player knows it.
    pub length: Option<Duration>,
    pub title: Option<String>,
    pub artists: Vec<String>,
    /// The song's track id; the player's "no track" id where it has none.
    pub track_id: String,
    pub art_url: Option<String>,
    pub playback_status: PlaybackStatus,
    pub shuffle: bool,
    pub loop_status: LoopStatus,
    pub can_go_next: bool,
    pub can_go_prev: bool,
    pub can_loop: bool,
    pub can_shuffle: bool,
    pub can_playpause: bool,
}

/// The text of an optional string, empty where there is none.
pub open spec fn spec_text_or_empty(s: Option<String>) -> Seq<char> {
    match s {
        Some(t) => t@,
        None => Seq::empty(),
    }
}

/// The playback state that a report gives the control buttons.
pub open spec fn spec_status_of(p: PlayerProgress) -> UIPlaybackStatus {
    UIPlaybackStatus {
        playback_status: p.playback_status,
        can_playpause: p.can_playpause,
        can_go_next: p.can_go_next,
        can_go_previous: p.can_go_prev,
        can_loop: p.can_loop,
        can_shuffle: p.can_shuffle,
        shuffle: p.shuffle,
        loop_status: p.loop_status,
    }
}

/// What tells one song from another: its track id followed by its title.
pub open spec fn spec_track_key(track_id: Seq<char>, title: Option<String>) -> Seq<char> {
    track_id + spec_text_or_empty(title)
}

/// The key of the song that a report is about.
pub open spec fn spec_progress_key(p: PlayerProgress) -> Seq<char> {
    spec_track_key(p.track_id@, p.title)
}

/// What the player reports to the module.
pub enum PlayerEvent {
    /// The player has gone away.
    PlayerQuit,
    /// The player's current state.
    Progress(PlayerProgress),
}

/// What the module shows and does after one report of the player.
#[derive(Debug)]
pub struct ProducerUpdate {
    /// The time played and the song's length, for the progress bar.
    pub time: (Duration, Duration),
    /// The song's title and first artist.
    pub metadata: (String, String),
    pub playback: UIPlaybackStatus,
    /// `Some(url)` where the album art must be loaded again: from `url`, or
    /// the default art where `url` is `None`.
    pub album_art: Option<Option<String>>,
    /// Whether the player is gone, so that another must be found and these
    /// reports end.
    pub player_gone: bool,
}

/// The album art to load, as text.
pub open spec fn spec_art_request(u: ProducerUpdate) -> Option<Option<Seq<char>>> {
    match u.album_art {
        Some(Some(url)) => Some(Some(url@)),
        Some(None) => Some(None),
        None => None,
    }
}

/// The optional text of an optional string.
pub open spec fn spec_opt_text(s: Option<String>) -> Option<Seq<char>> {
    match s {
        Some(t) => Some(t@),
        None => None,
    }
}

/// What the module remembers between reports: the key of the song whose
/// album art it shows.
pub struct PlayerTracker {
    track_key: String,
}

fn text_or_empty(s: &Option<String>) -> (r: String)
    ensures
        r@ == spec_text_or_empty(*s),
{
    match s {
        Some(t) => t.clone(),
        None => String::new(),
    }
}

impl PlayerTracker {
    pub closed spec fn spec_key(&self) -> Seq<char> {
        self.track_key@
    }

    /// The tracker for the song that the player plays when the module
    /// starts.
    pub fn new(track_id: &str, title: Option<String>) -> (t: Self)
        ensures
            t.spec_key() == spec_track_key(track_id@, title),
    {
        let mut key = track_id.to_string();
        let t = text_or_empty(&title);
        key.append(t.as_str());
        PlayerTracker { track_key: key }
    }

    /// What the module does after a report of the player. When the player
    /// has quit, the progress bar shows nothing played of a song one
    /// nanosecond long, the song data is cleared, the buttons are disabled,
    /// the default album art is loaded and another player is looked for.
    /// Otherwise the report's time, song data and playback state are shown,
    /// and the album art is loaded again exactly when the song has changed.
    pub fn on_event(&mut self, event: PlayerEvent) -> (u: ProducerUpdate)
        ensures
            match event {
                PlayerEvent::PlayerQuit => {
                    &&& u.time.0.nanos == 0
                    &&& u.time.1.nanos == 1
                    &&& u.metadata.0@ == Seq::<char>::empty()
                    &&& u.metadata.1@ == Seq::<char>::empty()
                    &&& u.playback == UIPlaybackStatus::spec_player_quit()
                    &&& spec_art_request(u) == Some(None::<Seq<char>>)
                    &&& u.player_gone
                    &&& final(self).spec_key() == old(self).spec_key()
                },
                PlayerEvent::Progress(p) => {
                    &&& u.time.0 == p.position
                    &&& u.time.1.nanos == match p.length {
                        Some(l) => l.nanos,
                        None => 0,
                    }
                    &&& u.metadata.0@ == spec_text_or_empty(p.title)
                    &&& u.metadata.1@ == if p.artists@.len() > 0 {
                        p.artists@[0]@
                    } else {
                        Seq::<char>::empty()
                    }
                    &&& u.playback == spec_status_of(p)
                    &&& spec_art_request(u) == if spec_progress_key(p) != old(self).spec_key() {
                        Some(spec_opt_text(p.art_url))
                    } else {
                        None
                    }
                    &&& !u.player_gone
                    &&& final(self).spec_key() == spec_progress_key(p)
                },
            },
    {
        match event {
            PlayerEvent::PlayerQuit => ProducerUpdate {
                time: (Duration::zero(), Duration::from_nanos(1)),
                metadata: (String::new(), String::new()),
                playback: UIPlaybackStatus::player_quit(),
                album_art: Some(None),
                player_gone: true,
            },
            PlayerEvent::Progress(p) => {
                let length = match p.length {
                    Some(l) => l,
                    None => Duration::zero(),
                };
                let song = text_or_empty(&p.title);
                let artist = if p.artists.len() > 0 {
                    p.artists[0].clone()
                } else {
                    String::new()
                };
                let mut key = p.track_id.clone();
                key.append(song.as_str());
                let album_art = if key == self.track_key {
                    None
                } else {
                    Some(p.art_url)
                };
                self.track_key = key;
                ProducerUpdate {
                    time: (p.position, length),
                    metadata: (song, artist),
                    playback: UIPlaybackStatus {
                        playback_status: p.playback_status,
                        can_playpause: p.can_playpause,
                        can_go_next: p.can_go_next,
                        can_go_previous: p.can_go_prev,
                        can_loop: p.can_loop,
                        can_shuffle: p.can_shuffle,
                        shuffle: p.shuffle,
                        loop_status: p.loop_status,
                    },
                    album_art,
                    player_gone: false,
                }
            },
        }
    }
}

/// What a press in the expanded activity asks of the player.
#[derive(Clone, Copy, Debug, PartialEq, Eq, Structural)]
pub enum UIAction {
    Shuffle,
    Previous,
    PlayPause,
    Next,
    Loop,
    SetPosition(Duration),
}

/// A command sent to the player.
#[derive(Clone, Copy, Debug, PartialEq, Eq, Structural)]
pub enum PlayerCommand {
    SetShuffle(bool),
    Previous,
    PlayPause,
    Next,
    SetLoop(LoopStatus),
    SetPosition(Duration),
}

/// The command for a press, given the player's shuffle setting and its
/// loop status (`None` where the player could not tell it).
pub open spec fn spec_player_command(
    action: UIAction,
    shuffle: bool,
    loop_status: Option<LoopStatus>,
) -> PlayerCommand {
    match action {
        UIAction::Shuffle => PlayerCommand::SetShuffle(!shuffle),
        UIAction::Previous => PlayerCommand::Previous,
        UIAction::PlayPause => PlayerCommand::PlayPause,
        UIAction::Next => PlayerCommand::Next,
        UIAction::Loop => PlayerCommand::SetLoop(
            match loop_status {
                Some(l) => l,
                None => LoopStatus::NoLoop,
            }.spec_next(),
        ),
        UIAction::SetPosition(d) => PlayerCommand::SetPosition(d),
    }
}

/// What each press asks of the player: shuffle sets the opposite of the
/// player's setting, loop moves the player's loop status (no repeat where
/// it could not tell) one press along the cycle, a position is passed on as
/// it is, and the other presses ask for their own action whatever the
/// player's settings.
pub proof fn lemma_press_commands(
    action: UIAction,
    shuffle: bool,
    loop_status: Option<LoopStatus>,
    other_shuffle: bool,
    other_loop: Option<LoopStatus>,
)
    ensures
        action == UIAction::Shuffle ==> (spec_player_command(action, shuffle, loop_status) matches PlayerCommand::SetShuffle(b) && b != shuffle),
        action == UIAction::Loop ==> (spec_player_command(action, shuffle, loop_status) matches PlayerCommand::SetLoop(l)
            && l == (match loop_status {
                Some(c) => c,
                None => LoopStatus::NoLoop,
            }).spec_next()),
        action matches UIAction::SetPosition(d) ==> spec_player_command(action, shuffle, loop_status)
            == PlayerCommand::SetPosition(d),
        action == UIAction::Previous ==> spec_player_command(action, shuffle, loop_status)
            == PlayerCommand::Previous,
        action == UIAction::Next ==> spec_player_command(action, shuffle, loop_status)
            == PlayerCommand::Next,
        action == UIAction::PlayPause ==> spec_player_command(action, shuffle, loop_status)
            == PlayerCommand::PlayPause,
        action != UIAction::Shuffle && action != UIAction::Loop ==> spec_player_command(
            action,
            shuffle,
            loop_status,
        ) == spec_player_command(action, other_shuffle, other_loop),
{
}

/// The command for a press: shuffle toggles the player's setting, loop moves
/// the player's loop status on by one (from no repeat where the player could
/// not tell it), the others pass through.
pub fn player_command(action: UIAction, shuffle: bool, loop_status: Option<LoopStatus>) -> (c:
    PlayerCommand)
    ensures
        c == spec_player_command(action, shuffle, loop_status),
{
    match action {
        UIAction::Shuffle => PlayerCommand::SetShuffle(!shuffle),
        UIAction::Previous => PlayerCommand::Previous,
        UIAction::PlayPause => PlayerCommand::PlayPause,
        UIAction::Next => PlayerCommand::Next,
        UIAction::Loop => {
            let current = match loop_status {
                Some(l) => l,
                None => LoopStatus::NoLoop,
            };
            PlayerCommand::SetLoop(current.next())
        },
        UIAction::SetPosition(d) => PlayerCommand::SetPosition(d),
    }
}

/// Where the watch for the preferred player stands.
#[derive(Clone, Copy, Debug, PartialEq, Eq, Structural)]
pub enum WatchPhase {
    /// Nothing looked up yet.
    Start,
    /// The preferred player plays; the watch waits for it to go.
    WatchingPreferred,
    /// Another player plays; the watch waits for the preferred one to come.
    WaitingForPreferred,
}

/// What the watch does after a look-up.
#[derive(Clone, Copy, Debug, PartialEq, Eq, Structural)]
pub enum WatchStep {
    /// Ask the module to find a player again; the watch ends.
    FindNewPlayer,
    /// Look up again at once, in this phase.
    LookAgain(WatchPhase),
    /// Look up again after a pause, in this phase.
    Sleep(WatchPhase),
}

/// The watch's step after a look-up that found the player named `found`,
/// or none.
pub open spec fn spec_watch_step(
    phase: WatchPhase,
    preferred: Seq<char>,
    found: Option<Seq<char>>,
) -> WatchStep {
    match found {
        None => WatchStep::FindNewPlayer,
        Some(name) => match phase {
            WatchPhase::Start => if name == preferred {
                WatchStep::LookAgain(WatchPhase::WatchingPreferred)
            } else {
                WatchStep::LookAgain(WatchPhase::WaitingForPreferred)
            },
            WatchPhase::WatchingPreferred => if name == preferred {
                WatchStep::Sleep(WatchPhase::WatchingPreferred)
            } else {
                WatchStep::FindNewPlayer
            },
            WatchPhase::WaitingForPreferred => if name == preferred {
                WatchStep::FindNewPlayer
            } else {
                WatchStep::Sleep(WatchPhase::WaitingForPreferred)
            },
        },
    }
}

/// One step of the watch for the preferred player: the module looks for a
/// player again when no player is found, when the preferred player went
/// away, or when it came back.
pub fn watch_step(phase: WatchPhase, preferred: &String, found: &Option<String>) -> (s: WatchStep)
    ensures
        s == spec_watch_step(phase, preferred@, spec_opt_text(*found)),
{
    match found {
        None => WatchStep::FindNewPlayer,
        Some(name) => {
            let same = *name == *preferred;
            match phase {
                WatchPhase::Start => if same {
                    WatchStep::LookAgain(WatchPhase::WatchingPreferred)
                } else {
                    WatchStep::LookAgain(WatchPhase::WaitingForPreferred)
                },
                WatchPhase::WatchingPreferred => if same {
                    WatchStep::Sleep(WatchPhase::WatchingPreferred)
                } else {
                    WatchStep::FindNewPlayer
                },
                WatchPhase::WaitingForPreferred => if same {
                    WatchStep::FindNewPlayer
                } else {
                    WatchStep::Sleep(WatchPhase::WaitingForPreferred)
                },
            }
        },
    }
}

/// When the watch asks for a new player: exactly when no player is found,
/// when the preferred player it watched is no longer the one found, or when
/// the preferred player it waited for is found. The first look-up never
/// pauses, and the later ones never change phase.
pub proof fn lemma_watch_ends(phase: WatchPhase, preferred: Seq<char>, found: Option<Seq<char>>)
    ensures
        (spec_watch_step(phase, preferred, found) == WatchStep::FindNewPlayer) <==> (found is None
            || (phase == WatchPhase::WatchingPreferred && found != Some(preferred)) || (phase
            == WatchPhase::WaitingForPreferred && found == Some(preferred))),
        phase == WatchPhase::Start && found == Some(preferred) ==> spec_watch_step(
            phase,
            preferred,
            found,
        ) == WatchStep::LookAgain(WatchPhase::WatchingPreferred),
        phase == WatchPhase::Start && found is Some && found != Some(preferred) ==> spec_watch_step(
            phase,
            preferred,
            found,
        ) == WatchStep::LookAgain(WatchPhase::WaitingForPreferred),
        !(spec_watch_step(phase, preferred, found) is Sleep) || phase != WatchPhase::Start,
{
}

/// The watch never leaves the phase that its first look-up chose: every
/// step after the first either ends the watch or stays in its phase.
pub proof fn lemma_watch_keeps_phase(
    phase: WatchPhase,
    preferred: Seq<char>,
    found: Option<Seq<char>>,
)
    requires
        phase != WatchPhase::Start,
    ensures
        spec_watch_step(phase, preferred, found) == WatchStep::FindNewPlayer
            || spec_watch_step(phase, preferred, found) == WatchStep::Sleep(phase),
{
}

/// How the producer starts, once it has looked for a player.
#[derive(Clone, Copy, Debug, PartialEq, Eq, Structural)]
pub enum ProducerSetup {
    /// A player was found and the activity is missing: build and register
    /// it, then start.
    RegisterAndStart,
    /// A player was found and the activity is registered: start.
    Start,
    /// No player was found: the activity has been unregistered; ask for a
    /// new player and stop.
    FindNewPlayer,
}

/// The producer's first step. Without a player the activity named
/// `activity` leaves the registry and a new player is asked for; with one,
/// the activity is registered first where it is missing.
pub fn producer_setup<V>(registry: &mut ActivityMap<V>, activity: &str, player_found: bool) -> (s:
    ProducerSetup)
    requires
        old(registry).wf(),
    ensures
        final(registry).wf(),
        !player_found ==> s == ProducerSetup::FindNewPlayer && final(registry).view() == old(
            registry,
        ).view().remove(activity@),
        player_found ==> final(registry).view() == old(registry).view() && s == if old(
            registry,
        ).view().dom().contains(activity@) {
            ProducerSetup::Start
        } else {
            ProducerSetup::RegisterAndStart
        },
{
    if !player_found {
        let _ = registry.remove(activity);
        ProducerSetup::FindNewPlayer
    } else if registry.contains(activity) {
        ProducerSetup::Start
    } else {
        ProducerSetup::RegisterAndStart
    }
}

} // verus!
