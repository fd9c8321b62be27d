use vstd::prelude::*;

verus! {

/// The audio cues the gameplay logic can ask for.
#[derive(Clone, Copy, Debug, PartialEq, Eq, Structural)]
pub enum PlayerSoundType {
    Cock,
    Gunshot,
    Shell,
    Bite,
    Empty,
}

/// A cue scheduled for later: play `sound_type` once the clock reading
/// passes `time_to_play` (milliseconds).
#[derive(Clone, Copy, Debug, PartialEq, Eq, Structural)]
pub struct PlayerSound {
    pub time_to_play: u64,
    pub sound_type: PlayerSoundType,
}

/// Whether a scheduled cue is due at clock reading `now_ms`: strictly after
/// its trigger time, so a cue scheduled for "now" plays on the next tick.
pub open spec fn sound_due(s: PlayerSound, now_ms: u64) -> bool {
    s.time_to_play < now_ms
}

/// The cues of `q` that are still waiting at `now_ms`, in schedule order.
pub open spec fn spec_sounds_kept(q: Seq<PlayerSound>, now_ms: u64) -> Seq<PlayerSound> {
    q.filter(|s: PlayerSound| !sound_due(s, now_ms))
}

/// The cue kinds of `q` that are due at `now_ms`, in schedule order.
pub open spec fn spec_sounds_due(q: Seq<PlayerSound>, now_ms: u64) -> Seq<PlayerSoundType> {
    q.filter(|s: PlayerSound| sound_due(s, now_ms)).map_values(|s: PlayerSound| s.sound_type)
}

/// The deferred-cue queue: records scheduled by gameplay logic, polled each
/// tick by the audio glue. Scheduling never cancels: every record stays
/// until its time passes, then is handed out exactly once.
pub struct SoundQueue {
    pending: Vec<PlayerSound>,
}

impl View for SoundQueue {
    type V = Seq<PlayerSound>;

    closed spec fn view(&self) -> Seq<PlayerSound> {
        self.pending@
    }
}

impl SoundQueue {
    pub fn new() -> (q: SoundQueue)
        ensures
            q@ == Seq::<PlayerSound>::empty(),
    {
        SoundQueue { pending: Vec::new() }
    }

    pub fn schedule(&mut self, s: PlayerSound)
        ensures
            final(self)@ == old(self)@.push(s),
    {
        self.pending.push(s);
    }

    pub fn len(&self) -> (n: usize)
        ensures
            n == self@.len(),
    {
        self.pending.len()
    }

    pub fn get(&self, i: usize) -> (s: PlayerSound)
        requires
            i < self@.len(),
        ensures
            s == self@[i as int],
    {
        self.pending[i]
    }

    /// Hand out every cue whose trigger time has passed and drop it from the
    /// queue; the rest stay, in order. Cues come out in schedule order.
    pub fn poll_due(&mut self, now_ms: u64) -> (due: Vec<PlayerSoundType>)
        ensures
            final(self)@ == spec_sounds_kept(old(self)@, now_ms),
            due@ == spec_sounds_due(old(self)@, now_ms),
    {
        let ghost q = self.pending@;
        let mut kept: Vec<PlayerSound> = Vec::new();
        let mut due: Vec<PlayerSoundType> = Vec::new();
        let n = self.pending.len();
        let mut i: usize = 0;
        while i < n
            invariant
                i <= n,
                n == q.len(),
                q == self.pending@,
                kept@ == spec_sounds_kept(q.take(i as int), now_ms),
                due@ == spec_sounds_due(q.take(i as int), now_ms),
            decreases n - i,
        {
            let s = self.pending[i];
            if s.time_to_play < now_ms {
                due.push(s.sound_type);
            } else {
                kept.push(s);
            }
            proof {
                let pre = q.take(i as int);
                let post = q.take(i as int + 1);
                assert(post.drop_last() =~= pre);
                assert(post.last() == s);
                reveal(Seq::filter);
                assert(spec_sounds_due(post, now_ms) =~= if sound_due(s, now_ms) {
                    spec_sounds_due(pre, now_ms).push(s.sound_type)
                } else {
                    spec_sounds_due(pre, now_ms)
                });
            }
            i = i + 1;
        }
        proof {
            assert(q.take(n as int) =~= q);
        }
        self.pending = kept;
        due
    }
}

} // verus!
