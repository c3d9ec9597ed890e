use vstd::prelude::*;

use crate::config::WaitConfig;
use crate::load::LoadAvg;

verus! {

/// The continuation predicate of the polling loop: waiting goes on exactly
/// while the sample is on the wrong side of the threshold for the chosen
/// direction and the elapsed time is still under the budget. Equality of
/// sample and threshold stops the wait in both directions.
pub open spec fn must_wait_spec(
    threshold: int,
    reverse: bool,
    max_time: int,
    la: int,
    elapsed_time: int,
) -> bool {
    ((la > threshold && !reverse) || (la < threshold && reverse)) && elapsed_time < max_time
}

/// Decides whether the wait loop keeps polling, given the threshold, the
/// comparison direction, the time budget in seconds, the latest sample and
/// the seconds elapsed since active sampling began.
pub fn must_wait(
    threshold: LoadAvg,
    reverse: bool,
    max_time: u64,
    la: LoadAvg,
    elapsed_time: u64,
) -> (r: bool)
    ensures
        r == must_wait_spec(
            threshold.value(),
            reverse,
            max_time as int,
            la.value(),
            elapsed_time as int,
        ),
{
    ((la.milli > threshold.milli && !reverse) || (la.milli < threshold.milli && reverse))
        && elapsed_time < max_time
}

/// With `reverse` off, the loop continues exactly while the sample is
/// strictly above the threshold and the time budget is not exhausted.
pub proof fn lemma_must_wait_forward(threshold: int, max_time: int, la: int, elapsed_time: int)
    ensures
        must_wait_spec(threshold, false, max_time, la, elapsed_time) <==> (la > threshold
            && elapsed_time < max_time),
{
}

/// With `reverse` on, the loop continues exactly while the sample is
/// strictly below the threshold and the time budget is not exhausted.
pub proof fn lemma_must_wait_reverse(threshold: int, max_time: int, la: int, elapsed_time: int)
    ensures
        must_wait_spec(threshold, true, max_time, la, elapsed_time) <==> (la < threshold
            && elapsed_time < max_time),
{
}

/// Once the elapsed time reaches the budget, the wait is over, whatever the
/// sample, the threshold or the direction.
pub proof fn lemma_budget_exhausted(
    threshold: int,
    reverse: bool,
    max_time: int,
    la: int,
    elapsed_time: int,
)
    requires
        elapsed_time >= max_time,
    ensures
        !must_wait_spec(threshold, reverse, max_time, la, elapsed_time),
{
}

/// A sample equal to the threshold ends the wait in both directions: the
/// comparisons are strict.
pub proof fn lemma_equal_sample_stops(
    threshold: int,
    reverse: bool,
    max_time: int,
    elapsed_time: int,
)
    ensures
        !must_wait_spec(threshold, reverse, max_time, threshold, elapsed_time),
{
}

/// The policy for a failed reading: the host's answer, when there is one,
/// is used as it came; a failure degrades to a load of zero, so the loop
/// proceeds instead of aborting.
pub fn absorb_sample_failure(reading: Option<LoadAvg>) -> (r: LoadAvg)
    ensures
        reading is Some ==> r == reading.unwrap(),
        reading is None ==> r.value() == 0,
{
    match reading {
        Option::Some(la) => la,
        Option::None => LoadAvg::zero(),
    }
}

/// The phase of one wait: the mandatory initial delay, then active
/// sampling, then the terminal state once the predicate has gone false.
/// There is no way back from `Done`, and `Delaying` never reaches `Done`
/// directly: at least one sample is always taken after the delay.
#[derive(Clone, Copy, PartialEq, Eq, Structural, Debug)]
pub enum WaitState {
    Delaying,
    Polling,
    Done,
}

/// What the controller learns from its surroundings: that the wait has been
/// started, or the latest reading together with the seconds elapsed since
/// active sampling began.
#[derive(Clone, Copy, PartialEq, Eq, Structural, Debug)]
pub enum WaitEvent {
    Started,
    Sampled { load: LoadAvg, elapsed_secs: u64 },
}

/// What the controller asks its surroundings to do next: perform the
/// initial delay and then take the first sample; sleep one poll interval
/// and then take the next sample; or stop, the wait being over.
#[derive(Clone, Copy, PartialEq, Eq, Structural, Debug)]
pub enum WaitAction {
    DelaySecs(u64),
    SleepMillis(u64),
    Exit,
}

/// The events each phase can receive: the start signal while delaying, a
/// sample while polling. `Done` is terminal and receives nothing.
pub open spec fn accepts(state: WaitState, event: WaitEvent) -> bool {
    match (state, event) {
        (WaitState::Delaying, WaitEvent::Started) => true,
        (WaitState::Polling, WaitEvent::Sampled { .. }) => true,
        _ => false,
    }
}

/// Whether a sample event keeps the wait of `config` going.
pub open spec fn event_continues(config: WaitConfig, load: LoadAvg, elapsed_secs: u64) -> bool {
    must_wait_spec(
        config.threshold.value(),
        config.reverse,
        config.max_time as int,
        load.value(),
        elapsed_secs as int,
    )
}

/// One transition of the wait controller. The start signal moves the
/// controller out of the delay phase and asks for the mandatory initial
/// delay followed by the first sample; each sample either keeps the
/// controller polling, with one poll-interval sleep before the next sample,
/// or ends the wait.
pub fn wait_step(config: &WaitConfig, state: WaitState, event: WaitEvent) -> (r: (
    WaitState,
    WaitAction,
))
    requires
        accepts(state, event),
    ensures
        state is Delaying ==> r.0 is Polling && r.1 == WaitAction::DelaySecs(config.min_time),
        state is Polling ==> (event matches WaitEvent::Sampled { load, elapsed_secs } ==> {
            if event_continues(*config, load, elapsed_secs) {
                r.0 is Polling && r.1 == WaitAction::SleepMillis(config.sleep_millis)
            } else {
                r.0 is Done && r.1 is Exit
            }
        }),
{
    match (state, event) {
        (WaitState::Delaying, WaitEvent::Started) => (
            WaitState::Polling,
            WaitAction::DelaySecs(config.min_time),
        ),
        (WaitState::Polling, WaitEvent::Sampled { load, elapsed_secs }) => {
            if must_wait(config.threshold, config.reverse, config.max_time, load, elapsed_secs) {
                (WaitState::Polling, WaitAction::SleepMillis(config.sleep_millis))
            } else {
                (WaitState::Done, WaitAction::Exit)
            }
        },
        _ => (WaitState::Done, WaitAction::Exit),
    }
}

/// One pre-recorded observation for a scripted run: a load reading together
/// with the elapsed seconds at which it would be taken.
#[derive(Clone, Copy, PartialEq, Eq, Structural, Debug)]
pub struct SampleEvent {
    pub load: LoadAvg,
    pub elapsed_secs: u64,
}

/// What a scripted run did: how many of the script's observations it
/// consumed, how many poll sleeps it performed, and whether the wait
/// actually finished or the script ran out while the wait was still on.
#[derive(Clone, Copy, PartialEq, Eq, Structural, Debug)]
pub struct ScriptReport {
    pub samples_consumed: usize,
    pub sleeps: usize,
    pub finished: bool,
}

/// Drives the wait controller over a fixed script of observations, exactly
/// as the real loop drives it over the host's readings. One observation is
/// consumed per loop turn and one poll sleep is performed between
/// consecutive observations — never a skipped or a doubled sleep — so the
/// sleep count is always one less than the sample count; the run consumes
/// observations up to and including the first one that ends the wait, or
/// the whole script if none does.
pub fn run_script(config: &WaitConfig, script: &Vec<SampleEvent>) -> (r: ScriptReport)
    requires
        script.len() >= 1,
    ensures
        1 <= r.samples_consumed <= script.len(),
        r.sleeps == r.samples_consumed - 1,
        forall|i: int|
            0 <= i < r.samples_consumed - 1 ==> event_continues(
                *config,
                script@[i].load,
                script@[i].elapsed_secs,
            ),
        r.finished == !event_continues(
            *config,
            script@[r.samples_consumed - 1].load,
            script@[r.samples_consumed - 1].elapsed_secs,
        ),
        !r.finished ==> r.samples_consumed == script.len(),
{
    let (st0, _delay) = wait_step(config, WaitState::Delaying, WaitEvent::Started);
    let e0 = script[0];
    let (st1, act1) = wait_step(
        config,
        st0,
        WaitEvent::Sampled { load: e0.load, elapsed_secs: e0.elapsed_secs },
    );
    let mut state = st1;
    let mut cont: bool = match act1 {
        WaitAction::SleepMillis(_) => true,
        _ => false,
    };
    let mut consumed: usize = 1;
    let mut sleeps: usize = 0;
    while cont && consumed < script.len()
        invariant
            1 <= consumed <= script.len(),
            sleeps == consumed - 1,
            forall|i: int|
                0 <= i < consumed - 1 ==> event_continues(
                    *config,
                    script@[i].load,
                    script@[i].elapsed_secs,
                ),
            cont == event_continues(
                *config,
                script@[consumed - 1].load,
                script@[consumed - 1].elapsed_secs,
            ),
            cont ==> state is Polling,
        decreases script.len() - consumed,
    {
        sleeps = sleeps + 1;
        let e = script[consumed];
        let (st, act) = wait_step(
            config,
            state,
            WaitEvent::Sampled { load: e.load, elapsed_secs: e.elapsed_secs },
        );
        state = st;
        cont = match act {
            WaitAction::SleepMillis(_) => true,
            _ => false,
        };
        consumed = consumed + 1;
    }
    ScriptReport { samples_consumed: consumed, sleeps, finished: !cont }
}

} // verus!
