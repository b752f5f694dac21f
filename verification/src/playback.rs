//! What the player's state changes show: the play/pause button's icon, and
//! how far into the current track playback is.

use vstd::prelude::*;

verus! {

/// How long after a track is loaded it is started, in milliseconds.
pub const TRACK_LOAD_DELAY_MILLIS: u64 = 2000;

/// How often the player's events are processed, in milliseconds.
pub const EVENT_INTERVAL_MILLIS: u64 = 16;

/// A change in the player's state.
#[derive(PartialEq, Eq, Structural, Clone, Copy, Debug)]
pub enum PlayerEvent {
    Playing,
    Paused,
    Stopped,
    FinishedTrack,
}

/// The icon that the play/pause button shows.
#[derive(PartialEq, Eq, Structural, Clone, Copy, Debug)]
pub enum PlayPauseIcon {
    /// Playback can be paused.
    Pause,
    /// Playback can be started.
    Play,
}

/// The icon to switch the play/pause button to after `event`: the pause icon
/// once playing, the play icon once paused, and no change otherwise.
pub fn icon_after(event: PlayerEvent) -> (icon: Option<PlayPauseIcon>)
    ensures
        icon == match event {
            PlayerEvent::Playing => Some(PlayPauseIcon::Pause),
            PlayerEvent::Paused => Some(PlayPauseIcon::Play),
            _ => None::<PlayPauseIcon>,
        },
{
    match event {
        PlayerEvent::Playing => Some(PlayPauseIcon::Pause),
        PlayerEvent::Paused => Some(PlayPauseIcon::Play),
        PlayerEvent::Stopped => None,
        PlayerEvent::FinishedTrack => None,
    }
}

/// The icon that a single event switches to, if it switches at all.
pub open spec fn icon_of(event: PlayerEvent) -> Option<PlayPauseIcon> {
    match event {
        PlayerEvent::Playing => Some(PlayPauseIcon::Pause),
        PlayerEvent::Paused => Some(PlayPauseIcon::Play),
        _ => None,
    }
}

/// The icon that the button shows after `events` are applied in turn: that
/// of the last event that switches it, or no change when none does.
pub open spec fn icon_after_all(events: Seq<PlayerEvent>) -> Option<PlayPauseIcon>
    decreases events.len(),
{
    if events.len() == 0 {
        None
    } else if icon_of(events.last()) is Some {
        icon_of(events.last())
    } else {
        icon_after_all(events.drop_last())
    }
}

/// A Playing event switches to the pause icon, a Paused event to the play
/// icon, and the other events switch nothing.
pub proof fn icon_of_law(e: PlayerEvent)
    ensures
        icon_of(e) == match e {
            PlayerEvent::Playing => Some(PlayPauseIcon::Pause),
            PlayerEvent::Paused => Some(PlayPauseIcon::Play),
            PlayerEvent::Stopped => None,
            PlayerEvent::FinishedTrack => None,
        },
{
}

/// A run of one event switches as that event does.
pub proof fn icon_after_single(events: Seq<PlayerEvent>)
    ensures
        events.len() == 1 ==> icon_after_all(events) == match events[0] {
            PlayerEvent::Playing => Some(PlayPauseIcon::Pause),
            PlayerEvent::Paused => Some(PlayPauseIcon::Play),
            _ => None,
        },
{
    if events.len() == 1 {
        assert(events.drop_last().len() == 0);
        assert(icon_after_all(events.drop_last()) is None);
        assert(events.last() == events[0]);
        icon_of_law(events[0]);
    }
}

/// After a run of events the button shows the icon of the last event that
/// switches it, and is left unchanged exactly when no event switches it.
pub proof fn icon_after_all_is_last_switch(events: Seq<PlayerEvent>)
    ensures
        icon_after_all(events) is None <==> forall|j: int|
            0 <= j < events.len() ==> #[trigger] icon_of(events[j]) is None,
        icon_after_all(events) is Some ==> exists|k: int|
            0 <= k < events.len() && icon_after_all(events) == #[trigger] icon_of(events[k]) && forall|
                j: int,
            | k < j < events.len() ==> #[trigger] icon_of(events[j]) is None,
    decreases events.len(),
{
    if events.len() > 0 {
        let init = events.drop_last();
        icon_after_all_is_last_switch(init);
        let n = events.len() - 1;
        assert(events.last() == events[n]);
        assert forall|j: int| 0 <= j < n implies #[trigger] init[j] == events[j] by {}
        if icon_of(events.last()) is Some {
            assert(icon_after_all(events) == icon_of(events[n]));
        } else {
            if icon_after_all(init) is Some {
                let k = choose|k: int|
                    0 <= k < init.len() && icon_after_all(init) == #[trigger] icon_of(init[k]) && forall|
                        j: int,
                    | k < j < init.len() ==> #[trigger] icon_of(init[j]) is None;
                assert(icon_of(events[k]) == icon_of(init[k]));
                assert forall|j: int| k < j < events.len() implies #[trigger] icon_of(events[j]) is None by {
                    if j < n {
                        assert(icon_of(init[j]) is None);
                    }
                }
            } else {
                assert forall|j: int| 0 <= j < events.len() implies #[trigger] icon_of(events[j]) is None by {
                    if j < n {
                        assert(icon_of(init[j]) is None);
                    }
                }
            }
        }
    }
}

/// The icon after two runs one after the other is that after the second run,
/// unless the second run switches nothing, in which case it is that after the first.
pub proof fn icon_after_concat(a: Seq<PlayerEvent>, b: Seq<PlayerEvent>)
    ensures
        icon_after_all(a + b) == if icon_after_all(b) is Some {
            icon_after_all(b)
        } else {
            icon_after_all(a)
        },
    decreases b.len(),
{
    if b.len() > 0 {
        assert((a + b).drop_last() =~= a + b.drop_last());
        assert((a + b).last() == b.last());
        icon_after_concat(a, b.drop_last());
    } else {
        assert(a + b =~= a);
    }
}

/// Applies the pending `events` in turn, and gives the icon the button ends
/// up switched to, or `None` when no event switches it.
pub fn icon_after_events(events: &Vec<PlayerEvent>) -> (icon: Option<PlayPauseIcon>)
    ensures
        icon == icon_after_all(events@),
        icon is None <==> forall|j: int| 0 <= j < events@.len() ==> #[trigger] icon_of(events@[j]) is None,
        icon is Some ==> exists|k: int|
            0 <= k < events@.len() && icon == #[trigger] icon_of(events@[k]) && forall|j: int|
                k < j < events@.len() ==> #[trigger] icon_of(events@[j]) is None,
        events@.len() == 1 ==> icon == icon_of(events@[0]),
{
    proof {
        icon_after_all_is_last_switch(events@);
        icon_after_single(events@);
    }
    let mut icon: Option<PlayPauseIcon> = None;
    let n = events.len();
    for i in 0..n
        invariant
            n == events@.len(),
            icon == icon_after_all(events@.take(i as int)),
    {
        assert(events@.take(i + 1).drop_last() =~= events@.take(i as int));
        assert(events@.take(i + 1).last() == events@[i as int]);
        match icon_after(events[i]) {
            Some(switched) => {
                icon = Some(switched);
            },
            None => {},
        }
    }
    assert(events@.take(n as int) =~= events@);
    icon
}

/// Whether the milliseconds of a progress of `secs` seconds and
/// `subsec_millis` milliseconds can be computed: the seconds in milliseconds
/// fit 64 bits, and once cut to their low 32 bits the sum still fits 32 bits.
pub open spec fn millis_computable(secs: u64, subsec_millis: u32) -> bool {
    &&& secs * 1000 <= u64::MAX
    &&& (secs * 1000) % 0x1_0000_0000 + subsec_millis <= u32::MAX
}

/// The milliseconds of a progress: the seconds in milliseconds cut to 32 bits,
/// plus the milliseconds beyond the whole seconds.
pub open spec fn progress_millis(secs: u64, subsec_millis: u32) -> int {
    (secs * 1000) % 0x1_0000_0000 + subsec_millis
}

/// The milliseconds into the track of a progress of `secs` seconds and
/// `subsec_millis` milliseconds.
pub fn elapsed_millis(secs: u64, subsec_millis: u32) -> (ms: u32)
    requires
        millis_computable(secs, subsec_millis),
    ensures
        ms == progress_millis(secs, subsec_millis),
{
    let whole: u64 = secs * 1000;
    let cut: u32 = whole as u32;
    assert(cut == whole % 0x1_0000_0000) by (bit_vector)
        requires
            cut == whole as u32,
    ;
    cut + subsec_millis
}

/// The progress to show, as milliseconds played of a track of
/// `track_length` milliseconds: there is one only while playing a track of
/// known, nonzero length.
pub fn progress(status: PlayerEvent, track_length: u32, secs: u64, subsec_millis: u32) -> (p: Option<
    u32,
>)
    requires
        status == PlayerEvent::Playing && track_length > 0 ==> millis_computable(secs, subsec_millis),
    ensures
        p == if status == PlayerEvent::Playing && track_length > 0 {
            Some(progress_millis(secs, subsec_millis) as u32)
        } else {
            None::<u32>
        },
{
    if status == PlayerEvent::Playing && track_length > 0 {
        Some(elapsed_millis(secs, subsec_millis))
    } else {
        None
    }
}

} // verus!
