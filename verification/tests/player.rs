use dynisland::dynamic_activity::{DynamicActivity, LookupError, PropertyError};
use dynisland::activity::{ActivityMap, ActivityMapError};
use dynisland::music::LoopStatus;
use dynisland::player::{
    controls_state, player_command, producer_setup, watch_step, PlaybackStatus, ProducerSetup, PlayerCommand, PlayerEvent,
    PlayerProgress, PlayerTracker, UIAction, UIPlaybackStatus, WatchPhase, WatchStep,
};
use dynisland::time::Duration;

fn progress(track_id: &str, title: Option<&str>) -> PlayerProgress {
    PlayerProgress {
        position: Duration::from_secs(42),
        length: Some(Duration::from_secs(200)),
        title: title.map(|t| t.to_string()),
        artists: vec!["First".to_string(), "Second".to_string()],
        track_id: track_id.to_string(),
        art_url: Some("file:///art.png".to_string()),
        playback_status: PlaybackStatus::Playing,
        shuffle: false,
        loop_status: LoopStatus::Track,
        can_go_next: true,
        can_go_prev: false,
        can_loop: true,
        can_shuffle: true,
        can_playpause: true,
    }
}

#[test]
fn default_playback_status_disables_everything() {
    let s = UIPlaybackStatus::default();
    assert_eq!(s.playback_status, PlaybackStatus::Stopped);
    assert!(!s.can_playpause && !s.can_go_next && !s.can_go_previous);
    assert!(!s.can_loop && !s.can_shuffle && !s.shuffle);
    assert_eq!(s.loop_status, LoopStatus::NoLoop);
}

#[test]
fn controls_for_a_playing_player() {
    let mut s = UIPlaybackStatus::default();
    s.playback_status = PlaybackStatus::Playing;
    s.can_playpause = true;
    s.can_shuffle = true;
    s.shuffle = false;
    s.can_loop = true;
    s.loop_status = LoopStatus::Track;
    s.can_go_next = true;
    let c = controls_state(&s);
    assert_eq!(c.shuffle.icon, Some("media-playlist-consecutive-symbolic"));
    assert!(c.shuffle.sensitive);
    assert_eq!(c.play_pause.icon, Some("media-playback-pause-symbolic"));
    assert!(c.play_pause.sensitive);
    assert_eq!(c.repeat.icon, Some("media-playlist-repeat-song-symbolic"));
    assert!(c.repeat.sensitive);
    assert_eq!(c.next.icon, None);
    assert!(c.next.sensitive);
    assert_eq!(c.previous.icon, None);
    assert!(!c.previous.sensitive);
}

#[test]
fn controls_for_a_player_that_allows_nothing() {
    let mut s = UIPlaybackStatus::default();
    s.playback_status = PlaybackStatus::Paused;
    s.shuffle = false;
    s.loop_status = LoopStatus::NoLoop;
    let c = controls_state(&s);
    assert_eq!(c.shuffle.icon, Some("media-playlist-shuffle-symbolic"));
    assert_eq!(c.play_pause.icon, Some("media-playback-stop-symbolic"));
    assert_eq!(c.repeat.icon, Some("media-playlist-repeat-symbolic"));
    assert!(!c.shuffle.sensitive && !c.play_pause.sensitive && !c.repeat.sensitive);
}

#[test]
fn controls_for_paused_and_no_repeat() {
    let mut s = UIPlaybackStatus::default();
    s.playback_status = PlaybackStatus::Paused;
    s.can_playpause = true;
    s.can_loop = true;
    s.loop_status = LoopStatus::NoLoop;
    s.can_shuffle = true;
    s.shuffle = true;
    let c = controls_state(&s);
    assert_eq!(c.play_pause.icon, Some("media-playback-start-symbolic"));
    assert_eq!(c.repeat.icon, Some("mail-forward"));
    assert_eq!(c.shuffle.icon, Some("media-playlist-shuffle-symbolic"));
}

#[test]
fn report_shows_time_song_and_state() {
    let mut tracker = PlayerTracker::new("/track/1", Some("Old".to_string()));
    let u = tracker.on_event(PlayerEvent::Progress(progress("/track/2", Some("New"))));
    assert_eq!(u.time, (Duration::from_secs(42), Duration::from_secs(200)));
    assert_eq!(u.metadata, ("New".to_string(), "First".to_string()));
    assert_eq!(u.playback.playback_status, PlaybackStatus::Playing);
    assert!(u.playback.can_go_next && !u.playback.can_go_previous);
    assert_eq!(u.playback.loop_status, LoopStatus::Track);
    assert_eq!(u.album_art, Some(Some("file:///art.png".to_string())));
    assert!(!u.player_gone);
}

#[test]
fn same_song_keeps_its_album_art() {
    let mut tracker = PlayerTracker::new("/track/2", Some("New".to_string()));
    let u = tracker.on_event(PlayerEvent::Progress(progress("/track/2", Some("New"))));
    assert_eq!(u.album_art, None);
    let u = tracker.on_event(PlayerEvent::Progress(progress("/track/2", Some("Newer"))));
    assert_eq!(u.album_art, Some(Some("file:///art.png".to_string())));
    let u = tracker.on_event(PlayerEvent::Progress(progress("/track/2", Some("Newer"))));
    assert_eq!(u.album_art, None);
}

#[test]
fn report_without_length_title_or_artist() {
    let mut tracker = PlayerTracker::new("/t", None);
    let mut p = progress("/t", None);
    p.length = None;
    p.artists = Vec::new();
    let u = tracker.on_event(PlayerEvent::Progress(p));
    assert_eq!(u.time.1, Duration::zero());
    assert_eq!(u.metadata, (String::new(), String::new()));
    assert_eq!(u.album_art, None);
}

#[test]
fn player_quit_clears_the_activity() {
    let mut tracker = PlayerTracker::new("/t", None);
    let u = tracker.on_event(PlayerEvent::PlayerQuit);
    assert_eq!(u.time, (Duration::zero(), Duration::from_nanos(1)));
    assert_eq!(u.metadata, (String::new(), String::new()));
    assert_eq!(u.playback, UIPlaybackStatus::player_quit());
    assert!(u.playback.shuffle);
    assert_eq!(u.playback.loop_status, LoopStatus::Playlist);
    assert_eq!(u.album_art, Some(None));
    assert!(u.player_gone);
}

#[test]
fn commands_for_presses() {
    assert_eq!(player_command(UIAction::Shuffle, true, None), PlayerCommand::SetShuffle(false));
    assert_eq!(player_command(UIAction::Shuffle, false, None), PlayerCommand::SetShuffle(true));
    assert_eq!(player_command(UIAction::Next, false, None), PlayerCommand::Next);
    assert_eq!(player_command(UIAction::Previous, false, None), PlayerCommand::Previous);
    assert_eq!(player_command(UIAction::PlayPause, false, None), PlayerCommand::PlayPause);
    assert_eq!(
        player_command(UIAction::Loop, false, Some(LoopStatus::Track)),
        PlayerCommand::SetLoop(LoopStatus::Playlist)
    );
    assert_eq!(
        player_command(UIAction::Loop, false, None),
        PlayerCommand::SetLoop(LoopStatus::Track)
    );
    let d = Duration::from_millis(1500);
    assert_eq!(player_command(UIAction::SetPosition(d), false, None), PlayerCommand::SetPosition(d));
}

#[test]
fn watch_for_the_preferred_player() {
    let pref = "spotify".to_string();
    assert_eq!(watch_step(WatchPhase::Start, &pref, &None), WatchStep::FindNewPlayer);
    assert_eq!(
        watch_step(WatchPhase::Start, &pref, &Some("spotify".to_string())),
        WatchStep::LookAgain(WatchPhase::WatchingPreferred)
    );
    assert_eq!(
        watch_step(WatchPhase::Start, &pref, &Some("vlc".to_string())),
        WatchStep::LookAgain(WatchPhase::WaitingForPreferred)
    );
    assert_eq!(
        watch_step(WatchPhase::WatchingPreferred, &pref, &Some("spotify".to_string())),
        WatchStep::Sleep(WatchPhase::WatchingPreferred)
    );
    assert_eq!(
        watch_step(WatchPhase::WatchingPreferred, &pref, &Some("vlc".to_string())),
        WatchStep::FindNewPlayer
    );
    assert_eq!(
        watch_step(WatchPhase::WaitingForPreferred, &pref, &Some("vlc".to_string())),
        WatchStep::Sleep(WatchPhase::WaitingForPreferred)
    );
    assert_eq!(
        watch_step(WatchPhase::WaitingForPreferred, &pref, &Some("spotify".to_string())),
        WatchStep::FindNewPlayer
    );
}

#[test]
fn properties_are_added_once_and_subscribed_to() {
    let mut a: DynamicActivity<u32, &'static str> = DynamicActivity::new("music", "music-activity");
    assert_eq!(a.get_identifier().to_string(), "music-activity@music");
    assert_eq!(a.add_dynamic_property("music-time", 7), Ok(()));
    assert_eq!(
        a.add_dynamic_property("music-time", 8),
        Err(PropertyError::AlreadyAdded("music-time".to_string()))
    );
    let p = a.get_property_any("music-time").unwrap();
    assert_eq!(*p.get(), 7);
    assert_eq!(p.name(), "music-time");
    assert_eq!(p.activity_id().to_string(), "music-activity@music");
    assert_eq!(a.get_subscribers("music-time"), Ok(&[][..]));
    assert_eq!(a.subscribe_to_property("music-time", "label"), Ok(()));
    assert_eq!(a.subscribe_to_property("music-time", "bar"), Ok(()));
    assert_eq!(a.get_subscribers("music-time"), Ok(&["label", "bar"][..]));
    assert_eq!(
        a.subscribe_to_property("album-art", "image"),
        Err(PropertyError::Missing("album-art".to_string()))
    );
    assert!(matches!(a.get_property_any("album-art"), Err(PropertyError::Missing(n)) if n == "album-art"));
    assert_eq!(a.set_property("music-time", 9), Ok(()));
    assert_eq!(*a.get_property_any("music-time").unwrap().get(), 9);
    assert_eq!(a.get_subscribers("music-time"), Ok(&["label", "bar"][..]));
    assert_eq!(a.set_property("album-art", 1), Err(PropertyError::Missing("album-art".to_string())));
    assert_eq!(a.get_subscribers("album-art"), Err(PropertyError::Missing("album-art".to_string())));
}

#[test]
fn property_lookup_through_the_registry() {
    let mut a: DynamicActivity<u32, u8> = DynamicActivity::new("m", "act");
    a.add_dynamic_property("p", 5).unwrap();
    let mut map: ActivityMap<DynamicActivity<u32, u8>> = ActivityMap::new();
    map.insert_activity("act".to_string(), a).unwrap();
    let p = map.get_property("act", "p").unwrap();
    assert_eq!((*p.get(), p.name()), (5, "p"));
    assert!(matches!(
        map.get_property("act", "q"),
        Err(LookupError::Property(PropertyError::Missing(n))) if n == "q"
    ));
    assert!(matches!(
        map.get_property("other", "p"),
        Err(LookupError::Activity(ActivityMapError::NotFound(n))) if n == "other"
    ));
}

#[test]
fn updates_reach_the_subscribers_of_their_property() {
    let mut a: DynamicActivity<u32, &'static str> = DynamicActivity::new("m", "a");
    a.add_dynamic_property("p", 0).unwrap();
    a.subscribe_to_property("p", "a1").unwrap();
    a.subscribe_to_property("p", "a2").unwrap();
    let mut b: DynamicActivity<u32, &'static str> = DynamicActivity::new("m", "b");
    b.add_dynamic_property("q", 0).unwrap();
    b.subscribe_to_property("q", "bq").unwrap();
    let mut c: DynamicActivity<u32, &'static str> = DynamicActivity::new("m", "c");
    c.add_dynamic_property("p", 0).unwrap();
    c.subscribe_to_property("p", "c1").unwrap();
    let mut map: ActivityMap<DynamicActivity<u32, &'static str>> = ActivityMap::new();
    map.insert_activity("a".to_string(), a).unwrap();
    map.insert_activity("b".to_string(), b).unwrap();
    map.insert_activity("c".to_string(), c).unwrap();
    let names = |v: Vec<&&'static str>| v.into_iter().map(|s| *s).collect::<Vec<_>>();
    assert_eq!(names(map.update_subscribers("*", "p")), vec!["a1", "a2", "c1"]);
    assert_eq!(names(map.update_subscribers("*", "q")), vec!["bq"]);
    assert_eq!(names(map.update_subscribers("a", "p")), vec!["a1", "a2"]);
    assert_eq!(names(map.update_subscribers("b", "p")), Vec::<&str>::new());
    assert_eq!(names(map.update_subscribers("d", "p")), Vec::<&str>::new());
    assert_eq!(names(map.update_subscribers("*", "r")), Vec::<&str>::new());
}

#[test]
fn producer_setup_steps() {
    let mut map: ActivityMap<u8> = ActivityMap::new();
    assert_eq!(producer_setup(&mut map, "music-activity", true), ProducerSetup::RegisterAndStart);
    map.insert_activity("music-activity".to_string(), 1).unwrap();
    map.insert_activity("other".to_string(), 2).unwrap();
    assert_eq!(producer_setup(&mut map, "music-activity", true), ProducerSetup::Start);
    assert!(map.contains("music-activity"));
    assert_eq!(producer_setup(&mut map, "music-activity", false), ProducerSetup::FindNewPlayer);
    assert!(!map.contains("music-activity"));
    assert!(map.contains("other"));
    assert_eq!(producer_setup(&mut map, "music-activity", false), ProducerSetup::FindNewPlayer);
}
