//! The scene: its lights and snowflakes, the tick that animates them, and its
//! answers to the events of the host.

use crate::light::{
    generate_lights, lemma_light_step_keeps_place, light_step, spawned_light, Light, LIGHT_COUNT,
};
use crate::snow::{
    generate_snowflakes, lemma_snow_step_keeps_valid, snow_step, Snowflake, SNOWFLAKE_COUNT,
};
use rand::rngs::StdRng;
use vstd::prelude::*;

verus! {

/// Milliseconds from one tick to the next.
pub const TICK_MILLIS: u64 = 100;

/// The token that stands for no timer.
pub const NO_TIMER: u64 = 0;

/// The scene: fifty lights, a hundred snowflakes, the token of the timer that
/// is awaited, and the time of the last connection.
pub struct SceneState {
    lights: Vec<Light>,
    snowflakes: Vec<Snowflake>,
    timer_id: u64,
    last_update: u64,
}

/// What a scene holds.
pub struct SceneView {
    pub lights: Seq<Light>,
    pub snowflakes: Seq<Snowflake>,
    pub timer_id: u64,
    pub last_update: u64,
}

/// What the host tells the scene.
#[derive(Clone, Copy, Debug, PartialEq, Eq, Structural)]
pub enum Event {
    /// The drawing surface has become available, at the time `now`.
    WindowConnected { now: u64 },
    /// The timer with this token has fired.
    Timer { token: u64 },
    /// Anything else.
    Other,
}

/// What the scene asks of the host in answer to an event.
#[derive(Clone, Copy, Debug, PartialEq, Eq, Structural)]
pub enum Reaction {
    /// Nothing.
    Nothing,
    /// Arm a one-shot timer and report its token with `timer_armed`.
    ArmTimer { millis: u64 },
    /// Arm a one-shot timer, report its token with `timer_armed`, and paint
    /// the scene again.
    ArmTimerAndRepaint { millis: u64 },
}

impl SceneView {
    /// The scene has its fifty lights, all inside the tree, and its hundred
    /// snowflakes, all valid.
    pub open spec fn wf(self) -> bool {
        &&& self.lights.len() == LIGHT_COUNT
        &&& self.snowflakes.len() == SNOWFLAKE_COUNT
        &&& forall|i: int| 0 <= i < self.lights.len() ==> (#[trigger] self.lights[i]).valid()
        &&& forall|i: int|
            0 <= i < self.snowflakes.len() ==> (#[trigger] self.snowflakes[i]).valid()
    }

    /// The scene awaiting the timer `token`.
    pub open spec fn with_timer(self, token: u64) -> SceneView {
        SceneView { timer_id: token, ..self }
    }

    /// The scene connected at the time `now`.
    pub open spec fn connected_at(self, now: u64) -> SceneView {
        SceneView { last_update: now, ..self }
    }
}

/// `after` is what one tick can make of the scene `before`: every light and
/// every snowflake has made its own step, and nothing else has changed.
pub open spec fn scene_step(before: SceneView, after: SceneView) -> bool {
    &&& after.lights.len() == before.lights.len()
    &&& after.snowflakes.len() == before.snowflakes.len()
    &&& forall|i: int|
        0 <= i < before.lights.len() ==> light_step(before.lights[i], #[trigger] after.lights[i])
    &&& forall|i: int|
        0 <= i < before.snowflakes.len() ==> snow_step(
            before.snowflakes[i],
            #[trigger] after.snowflakes[i],
        )
    &&& after.timer_id == before.timer_id
    &&& after.last_update == before.last_update
}

/// `states` is a run of the animation: each scene is what one tick can make
/// of the scene before it.
pub open spec fn tick_run(states: Seq<SceneView>) -> bool {
    forall|i: int| 0 <= i < states.len() - 1 ==> scene_step(#[trigger] states[i], states[i + 1])
}

/// The scene `before` may answer `event` with `reaction` and be `after`
/// afterwards. A connection asks for the first timer and records the time.
/// The awaited timer makes one tick and asks for the next timer and for a
/// repaint. A timer with any other token, and any other event, changes nothing
/// and asks for nothing.
pub open spec fn answers(before: SceneView, event: Event, reaction: Reaction, after: SceneView) -> bool {
    match event {
        Event::WindowConnected { now } => {
            &&& reaction == Reaction::ArmTimer { millis: TICK_MILLIS }
            &&& after == before.connected_at(now)
        },
        Event::Timer { token } => if token == before.timer_id {
            &&& reaction == Reaction::ArmTimerAndRepaint { millis: TICK_MILLIS }
            &&& scene_step(before, after)
        } else {
            &&& reaction == Reaction::Nothing
            &&& after == before
        },
        Event::Other => {
            &&& reaction == Reaction::Nothing
            &&& after == before
        },
    }
}

/// A tick keeps the scene well formed: the fifty lights stay where they are,
/// and each of the hundred snowflakes stays between the top of the band above
/// the scene and the floor.
pub proof fn lemma_scene_step_keeps_wf(before: SceneView, after: SceneView)
    requires
        before.wf(),
        scene_step(before, after),
    ensures
        after.wf(),
        after.lights.len() == LIGHT_COUNT,
        after.snowflakes.len() == SNOWFLAKE_COUNT,
{
    assert forall|i: int| 0 <= i < after.lights.len() implies (#[trigger] after.lights[i]).valid() by {
        assert(before.lights[i].valid());
        lemma_light_step_keeps_place(before.lights[i], after.lights[i]);
    }
    assert forall|i: int| 0 <= i < after.snowflakes.len() implies (
    #[trigger] after.snowflakes[i]).valid() by {
        assert(before.snowflakes[i].valid());
        lemma_snow_step_keeps_valid(before.snowflakes[i], after.snowflakes[i]);
    }
}

/// However many ticks a run has, every scene of it is well formed if the first
/// one is: the counts of lights and snowflakes never change, and no snowflake
/// is ever above the band in which snowflakes appear or below the floor.
pub proof fn lemma_tick_run_keeps_wf(states: Seq<SceneView>, n: int)
    requires
        0 <= n < states.len(),
        states[0].wf(),
        tick_run(states),
    ensures
        states[n].wf(),
        states[n].lights.len() == LIGHT_COUNT,
        states[n].snowflakes.len() == SNOWFLAKE_COUNT,
    decreases n,
{
    if n > 0 {
        lemma_tick_run_keeps_wf(states, n - 1);
        assert(scene_step(states[n - 1], states[n - 1 + 1]));
        lemma_scene_step_keeps_wf(states[n - 1], states[n]);
    }
}

/// A snowflake that a tick takes below the floor is back in the band above
/// the scene after that tick, in a column of the scene.
pub proof fn lemma_scene_step_respawns(before: SceneView, after: SceneView, i: int)
    requires
        before.wf(),
        scene_step(before, after),
        0 <= i < before.snowflakes.len(),
        before.snowflakes[i].leaving(),
    ensures
        after.snowflakes[i].fresh(),
{
    assert(before.snowflakes[i].valid());
    lemma_snow_step_keeps_valid(before.snowflakes[i], after.snowflakes[i]);
}

impl View for SceneState {
    type V = SceneView;

    closed spec fn view(&self) -> SceneView {
        SceneView {
            lights: self.lights@,
            snowflakes: self.snowflakes@,
            timer_id: self.timer_id,
            last_update: self.last_update,
        }
    }
}

impl SceneState {
    /// The scene has its fifty lights, all inside the tree, and its hundred
    /// snowflakes, all valid.
    pub open spec fn wf(&self) -> bool {
        self@.wf()
    }

    /// A new scene with random lights and snowflakes, made at the time `now`.
    /// It awaits no timer.
    pub fn new(rng: &mut StdRng, now: u64) -> (scene: SceneState)
        ensures
            scene.wf(),
            scene@.timer_id == NO_TIMER,
            scene@.last_update == now,
            forall|i: int|
                0 <= i < scene@.lights.len() ==> spawned_light(#[trigger] scene@.lights[i]),
            forall|i: int|
                0 <= i < scene@.snowflakes.len() ==> (#[trigger] scene@.snowflakes[i]).fresh(),
    {
        let lights = generate_lights(rng);
        let snowflakes = generate_snowflakes(rng);
        SceneState { lights, snowflakes, timer_id: NO_TIMER, last_update: now }
    }

    /// The scene with the given lights and snowflakes, made at the time `now`
    /// and awaiting no timer; or nothing, if such a scene is not well formed.
    pub fn from_parts(lights: Vec<Light>, snowflakes: Vec<Snowflake>, now: u64) -> (scene: Option<
        SceneState,
    >)
        ensures
            match scene {
                Some(scene) => scene.wf() && scene@ == (SceneView {
                    lights: lights@,
                    snowflakes: snowflakes@,
                    timer_id: NO_TIMER,
                    last_update: now,
                }),
                None => !(SceneView {
                    lights: lights@,
                    snowflakes: snowflakes@,
                    timer_id: NO_TIMER,
                    last_update: now,
                }).wf(),
            },
    {
        let scene = SceneState { lights, snowflakes, timer_id: NO_TIMER, last_update: now };
        if scene.is_well_formed() {
            Some(scene)
        } else {
            None
        }
    }

    /// The lights, in the order in which they were made.
    pub fn lights(&self) -> (lights: &Vec<Light>)
        ensures
            lights@ == self@.lights,
    {
        &self.lights
    }

    /// The snowflakes, in the order in which they were made.
    pub fn snowflakes(&self) -> (snowflakes: &Vec<Snowflake>)
        ensures
            snowflakes@ == self@.snowflakes,
    {
        &self.snowflakes
    }

    /// The token of the timer that the scene awaits.
    pub fn timer_id(&self) -> (token: u64)
        ensures
            token == self@.timer_id,
    {
        self.timer_id
    }

    /// The time of the last connection, or of the scene's making.
    pub fn last_update(&self) -> (time: u64)
        ensures
            time == self@.last_update,
    {
        self.last_update
    }

    /// Whether the scene is well formed.
    pub fn is_well_formed(&self) -> (ok: bool)
        ensures
            ok == self.wf(),
    {
        if self.lights.len() != LIGHT_COUNT || self.snowflakes.len() != SNOWFLAKE_COUNT {
            return false;
        }
        let mut i: usize = 0;
        while i < self.lights.len()
            invariant
                i <= self.lights@.len(),
                forall|j: int| 0 <= j < i ==> (#[trigger] self.lights@[j]).valid(),
            decreases self.lights@.len() - i,
        {
            if !self.lights[i].is_valid() {
                return false;
            }
            i = i + 1;
        }
        let mut k: usize = 0;
        while k < self.snowflakes.len()
            invariant
                k <= self.snowflakes@.len(),
                forall|j: int| 0 <= j < k ==> (#[trigger] self.snowflakes@[j]).valid(),
            decreases self.snowflakes@.len() - k,
        {
            if !self.snowflakes[k].is_valid() {
                return false;
            }
            k = k + 1;
        }
        true
    }

    /// Records the token of the timer that the host has armed for the scene.
    pub fn timer_armed(&mut self, token: u64)
        ensures
            final(self)@ == old(self)@.with_timer(token),
    {
        self.timer_id = token;
    }

    /// One tick: every light twinkles, then every snowflake falls.
    pub fn tick(&mut self, rng: &mut StdRng)
        requires
            old(self).wf(),
        ensures
            scene_step(old(self)@, final(self)@),
            final(self).wf(),
    {
        let ghost before = self@;
        let mut i: usize = 0;
        while i < self.lights.len()
            invariant
                i <= self.lights@.len(),
                self.lights@.len() == before.lights.len(),
                self.snowflakes@ == before.snowflakes,
                self.timer_id == before.timer_id,
                self.last_update == before.last_update,
                forall|j: int| 0 <= j < i ==> light_step(before.lights[j], #[trigger] self.lights@[j]),
                forall|j: int|
                    i <= j < self.lights@.len() ==> #[trigger] self.lights@[j] == before.lights[j],
            decreases self.lights@.len() - i,
        {
            let mut light = self.lights[i];
            light.twinkle(rng);
            self.lights.set(i, light);
            i = i + 1;
        }
        let mut k: usize = 0;
        while k < self.snowflakes.len()
            invariant
                k <= self.snowflakes@.len(),
                before.wf(),
                self.snowflakes@.len() == before.snowflakes.len(),
                self.lights@.len() == before.lights.len(),
                self.timer_id == before.timer_id,
                self.last_update == before.last_update,
                forall|j: int|
                    0 <= j < before.lights.len() ==> light_step(
                        before.lights[j],
                        #[trigger] self.lights@[j],
                    ),
                forall|j: int|
                    0 <= j < k ==> snow_step(before.snowflakes[j], #[trigger] self.snowflakes@[j]),
                forall|j: int|
                    k <= j < self.snowflakes@.len() ==> #[trigger] self.snowflakes@[j]
                        == before.snowflakes[j],
            decreases self.snowflakes@.len() - k,
        {
            let mut flake = self.snowflakes[k];
            assert(flake == before.snowflakes[k as int]);
            flake.tick(rng);
            self.snowflakes.set(k, flake);
            k = k + 1;
        }
        proof {
            lemma_scene_step_keeps_wf(before, self@);
        }
    }

    /// Answers an event of the host. On a connection the scene records the
    /// time and asks for the first timer. On the timer that it awaits it makes
    /// one tick and asks for the next timer and for a repaint. A timer with
    /// any other token, and any other event, changes nothing.
    pub fn on_event(&mut self, event: Event, rng: &mut StdRng) -> (reaction: Reaction)
        requires
            old(self).wf(),
        ensures
            answers(old(self)@, event, reaction, final(self)@),
            final(self).wf(),
    {
        match event {
            Event::WindowConnected { now } => {
                self.last_update = now;
                Reaction::ArmTimer { millis: TICK_MILLIS }
            },
            Event::Timer { token } => {
                if token == self.timer_id {
                    self.tick(rng);
                    Reaction::ArmTimerAndRepaint { millis: TICK_MILLIS }
                } else {
                    Reaction::Nothing
                }
            },
            Event::Other => Reaction::Nothing,
        }
    }
}

/// Whatever the scene answers to an event, it stays well formed.
pub proof fn lemma_answer_keeps_wf(
    before: SceneView,
    event: Event,
    reaction: Reaction,
    after: SceneView,
)
    requires
        before.wf(),
        answers(before, event, reaction, after),
    ensures
        after.wf(),
{
    if let Event::Timer { token } = event {
        if token == before.timer_id {
            lemma_scene_step_keeps_wf(before, after);
        }
    }
}

} // verus!
