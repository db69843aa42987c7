//! Properties of the controller that span several events.
use vstd::prelude::*;

use crate::player::{
    command_for, finish, finish_command, initial_state, step, Command, LoadOutcome, Message,
    PlayerState,
};
use crate::track::base_name_of;
use crate::volume::MAX_VOLUME;

verus! {

/// The state after the controller has handled each message of `msgs` in turn.
pub open spec fn run(s: PlayerState, msgs: Seq<Message>) -> PlayerState
    decreases msgs.len(),
{
    if msgs.len() == 0 {
        s
    } else {
        run(step(s, msgs[0]), msgs.drop_first())
    }
}

/// Handling any message keeps the state well formed.
pub proof fn lemma_step_keeps_wf(s: PlayerState, m: Message)
    requires
        s.wf(),
    ensures
        step(s, m).wf(),
{
}

/// Handling any sequence of messages keeps the state well formed.
pub proof fn lemma_run_keeps_wf(s: PlayerState, msgs: Seq<Message>)
    requires
        s.wf(),
    ensures
        run(s, msgs).wf(),
    decreases msgs.len(),
{
    if msgs.len() > 0 {
        lemma_step_keeps_wf(s, msgs[0]);
        lemma_run_keeps_wf(step(s, msgs[0]), msgs.drop_first());
    }
}

/// Whatever volume steps (or other messages) follow the start, the volume stays between
/// silence and full gain. It is held in whole tenths, so it always lies an exact number
/// of steps from either bound.
pub proof fn lemma_volume_stays_in_range(msgs: Seq<Message>)
    ensures
        run(initial_state(), msgs).volume <= MAX_VOLUME,
{
    lemma_run_keeps_wf(initial_state(), msgs);
}

/// Play/pause with no track loaded changes nothing, leaves the player not playing, and
/// commands nothing.
pub proof fn lemma_play_pause_without_track(s: PlayerState)
    requires
        s.wf(),
        !s.sink_loaded,
    ensures
        step(s, Message::PlayPause) == s,
        !step(s, Message::PlayPause).playing,
        command_for(s, Message::PlayPause) == Command::Nothing,
{
}

/// Stop with no track loaded changes nothing and commands nothing.
pub proof fn lemma_stop_without_track(s: PlayerState)
    requires
        !s.sink_loaded,
    ensures
        step(s, Message::Stop) == s,
        command_for(s, Message::Stop) == Command::Nothing,
{
}

/// Loading a file that decodes labels the track with the file's base name and leaves it
/// paused; one play/pause afterwards starts it.
pub proof fn lemma_load_then_play(s: PlayerState, path: String)
    requires
        s.wf(),
    ensures
        ({
            let loaded = finish(step(s, Message::FileSelected(path)), LoadOutcome::Loaded);
            &&& loaded.track == Some(base_name_of(path@))
            &&& !loaded.playing
            &&& loaded.sink_loaded
            &&& step(loaded, Message::PlayPause).playing
            &&& command_for(loaded, Message::PlayPause) == Command::ResumeSink
        }),
{
}

/// Selecting a file drops the live sink before any new one exists: the command hands
/// the path to the audio side, which drops the old sink first, and no sink counts as
/// alive until the load is reported done.
pub proof fn lemma_load_discards_old_sink(s: PlayerState, path: String)
    requires
        s.wf(),
    ensures
        command_for(s, Message::FileSelected(path)) == Command::LoadFile(path),
        !step(s, Message::FileSelected(path)).sink_loaded,
        !step(s, Message::FileSelected(path)).playing,
        step(s, Message::FileSelected(path)).pending == Some(path@),
{
}

/// A load that fails leaves the track label as it was before the attempt (none if none
/// was loaded), the player not playing, and no sink alive.
pub proof fn lemma_failed_load_keeps_track(s: PlayerState, path: String, o: LoadOutcome)
    requires
        s.wf(),
        o != LoadOutcome::Loaded,
    ensures
        finish(step(s, Message::FileSelected(path)), o).track == s.track,
        !finish(step(s, Message::FileSelected(path)), o).playing,
        !finish(step(s, Message::FileSelected(path)), o).sink_loaded,
        finish_command(step(s, Message::FileSelected(path)), o) == Command::Nothing,
{
}

} // verus!
