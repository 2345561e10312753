use vstd::prelude::*;
use crate::bundle::{parameter_message, AvatarBundle, OscMessageView, OscValue, OscValueView};
use crate::level::Level;
use crate::text::str_eq;

verus! {

/// Number of places in the store.
pub const LENGTH: usize = 255;

/// What an unused place holds: minus one.
pub const UNUSED: Level = -1_000_000;

/// Least time between two places told to the avatar, in milliseconds.
pub const TELL_INTERVAL_MS: u64 = 250;

/// Time after which the store is saved again, in milliseconds.
pub const SAVE_INTERVAL_MS: u64 = 300_000;

pub const EXT_INDEX_PARAM: &'static str = "ExtIndex";

pub const EXT_VALUE_PARAM: &'static str = "ExtValue";

pub const INT_INDEX_PARAM: &'static str = "IntIndex";

pub const INT_VALUE_PARAM: &'static str = "IntValue";

/// A small store of values that the avatar writes place by place and that
/// is told back to it, one place at a time.
#[derive(Clone, Debug, PartialEq, Eq)]
pub struct ExtStorage {
    pub path: String,
    pub data: Vec<Level>,
    /// The place that the avatar is writing to; zero while it writes nothing.
    pub ext_index: usize,
    pub ext_value: Level,
    /// The place that was told last.
    pub int_index: usize,
    pub last_save: u64,
    pub last_tick: u64,
}

/// The next place after `from` that is in use, if one is left.
pub open spec fn next_used(data: Seq<Level>, from: int) -> Option<int>
    decreases LENGTH - from,
{
    if from + 1 >= LENGTH || from < 0 {
        None
    } else if data[from + 1] >= 0 {
        Some(from + 1)
    } else {
        next_used(data, from + 1)
    }
}

impl ExtStorage {
    /// The store has all its places, and the place told last is one of them.
    pub open spec fn wf(&self) -> bool {
        self.data@.len() == LENGTH && self.int_index < LENGTH
    }

    /// Checks that the store has all its places and that the place told last is one of them.
    pub fn is_wf(&self) -> (r: bool)
        ensures
            r == self.wf(),
    {
        self.data.len() == LENGTH && self.int_index < LENGTH
    }

    /// The store as it was last saved at `path`; a store with every place
    /// unused where nothing was saved or what was saved has not the right
    /// number of places.
    pub fn new(path: String, saved: Option<Vec<Level>>, now: u64) -> (me: ExtStorage)
        ensures
            me.wf(),
            me.path == path,
            me.ext_index == 0,
            me.ext_value == 0,
            me.int_index == 0,
            me.last_save == now,
            me.last_tick == now,
            match saved {
                Some(v) if v@.len() == LENGTH => me.data@ == v@,
                _ => me.data@ == Seq::new(LENGTH as nat, |i: int| UNUSED),
            },
    {
        let data = match saved {
            Some(v) if v.len() == LENGTH => v,
            _ => {
                let mut fresh: Vec<Level> = Vec::new();
                let mut i: usize = 0;
                while i < LENGTH
                    invariant
                        i <= LENGTH,
                        fresh@ == Seq::new(i as nat, |j: int| UNUSED),
                    decreases LENGTH - i,
                {
                    fresh.push(UNUSED);
                    i += 1;
                    assert(fresh@ =~= Seq::new(i as nat, |j: int| UNUSED));
                }
                fresh
            },
        };
        ExtStorage {
            path,
            data,
            ext_index: 0,
            ext_value: 0,
            int_index: 0,
            last_save: now,
            last_tick: now,
        }
    }

    /// The place that an index reported by the avatar stands for; an index
    /// below zero stands for a place beyond the store.
    pub open spec fn place_of(index: i32) -> usize {
        if index < 0 {
            usize::MAX
        } else {
            index as usize
        }
    }

    /// Whether the report of `value` for `name` writes into the store: a
    /// new place while a value above zero is held, or a new value while a
    /// place other than zero is held; and the place lies in the store.
    pub open spec fn writes(&self, name: Seq<char>, value: OscValueView) -> Option<(int, Level)> {
        match value {
            OscValueView::Int(index) => if name == EXT_INDEX_PARAM@ && self.ext_value > 0
                && Self::place_of(index) < LENGTH {
                Some((Self::place_of(index) as int, self.ext_value))
            } else {
                None
            },
            OscValueView::Float(v) => if name == EXT_VALUE_PARAM@ && 0 < self.ext_index < LENGTH {
                Some((self.ext_index as int, v))
            } else {
                None
            },
            _ => None,
        }
    }

    /// Takes note of a parameter that the avatar reported. A place beyond
    /// the store is never written to.
    pub fn notify(&mut self, name: &str, value: &OscValue)
        requires
            old(self).wf(),
        ensures
            final(self).wf(),
            final(self).path == old(self).path,
            final(self).last_save == old(self).last_save,
            final(self).last_tick == old(self).last_tick,
            final(self).ext_index == if name@ == EXT_INDEX_PARAM@ && value@ is Int {
                Self::place_of(value@->Int_0)
            } else {
                old(self).ext_index
            },
            final(self).ext_value == if name@ == EXT_VALUE_PARAM@ && value@ is Float {
                value@->Float_0
            } else {
                old(self).ext_value
            },
            match old(self).writes(name@, value@) {
                Some((place, v)) => final(self).data@ == old(self).data@.update(place, v)
                    && final(self).int_index == 0,
                None => final(self).data@ == old(self).data@ && final(self).int_index == old(
                    self,
                ).int_index,
            },
    {
        match value {
            OscValue::Int(index) => {
                if str_eq(name, EXT_INDEX_PARAM) {
                    self.ext_index = if *index < 0 {
                        usize::MAX
                    } else {
                        *index as usize
                    };
                    if self.ext_value > 0 && self.ext_index < LENGTH {
                        self.data[self.ext_index] = self.ext_value;
                        self.int_index = 0;
                    }
                }
            },
            OscValue::Float(v) => {
                if str_eq(name, EXT_VALUE_PARAM) {
                    self.ext_value = *v;
                    if self.ext_index > 0 && self.ext_index < LENGTH {
                        self.data[self.ext_index] = self.ext_value;
                        self.int_index = 0;
                    }
                }
            },
            _ => {},
        }
    }

    /// Moves on to the next place in use and hands out its value; goes back
    /// to the start where none is left.
    pub fn next(&mut self) -> (r: Option<Level>)
        requires
            old(self).wf(),
        ensures
            final(self).wf(),
            final(self).data == old(self).data,
            final(self).path == old(self).path,
            final(self).ext_index == old(self).ext_index,
            final(self).ext_value == old(self).ext_value,
            final(self).last_save == old(self).last_save,
            final(self).last_tick == old(self).last_tick,
            match next_used(old(self).data@, old(self).int_index as int) {
                Some(place) => final(self).int_index == place && r == Some(old(self).data@[place]),
                None => final(self).int_index == 0 && r is None,
            },
    {
        loop
            invariant
                self.wf(),
                self.data == old(self).data,
                self.path == old(self).path,
                self.ext_index == old(self).ext_index,
                self.ext_value == old(self).ext_value,
                self.last_save == old(self).last_save,
                self.last_tick == old(self).last_tick,
                next_used(self.data@, self.int_index as int) == next_used(
                    old(self).data@,
                    old(self).int_index as int,
                ),
            decreases LENGTH - self.int_index,
        {
            if self.int_index + 1 >= LENGTH {
                self.int_index = 0;
                return None;
            }
            self.int_index += 1;
            let value: Level = self.data[self.int_index];
            if value >= 0 {
                return Some(value);
            }
        }
    }

    /// Whether a tick at `now` comes too soon after the last place was told.
    pub open spec fn too_soon(&self, now: u64) -> bool {
        now - self.last_tick < TELL_INTERVAL_MS
    }

    /// Whether the store is due to be saved at `now`.
    pub open spec fn save_due(&self, now: u64) -> bool {
        now - self.last_save > SAVE_INTERVAL_MS
    }

    /// The two messages that tell the avatar the value at `place`.
    pub open spec fn told(place: int, value: Level) -> Seq<OscMessageView> {
        seq![
            parameter_message(INT_INDEX_PARAM@, OscValueView::Int(place as i32)),
            parameter_message(INT_VALUE_PARAM@, OscValueView::Float(value)),
        ]
    }

    /// What a tick at `now` tells the avatar: nothing within a quarter of a
    /// second after a place was told or while the avatar is writing, else
    /// the next place in use, if one is left.
    pub open spec fn step_messages(&self, now: u64) -> Seq<OscMessageView> {
        if self.too_soon(now) || self.ext_index != 0 {
            Seq::empty()
        } else {
            match next_used(self.data@, self.int_index as int) {
                Some(place) => Self::told(place, self.data@[place]),
                None => Seq::empty(),
            }
        }
    }

    /// Whether a tick at `now` asks for the store to be saved.
    pub open spec fn step_saves(&self, now: u64) -> bool {
        !self.too_soon(now) && self.ext_index == 0 && self.save_due(now)
    }

    /// The store after a tick at `now`.
    pub open spec fn stepped(&self, now: u64) -> ExtStorage {
        if self.too_soon(now) {
            *self
        } else if self.ext_index != 0 {
            ExtStorage { int_index: 0, ..*self }
        } else {
            let last_save = if self.save_due(now) {
                now
            } else {
                self.last_save
            };
            match next_used(self.data@, self.int_index as int) {
                Some(place) => ExtStorage {
                    int_index: place as usize,
                    last_tick: now,
                    last_save,
                    ..*self
                },
                None => ExtStorage { int_index: 0, last_save, ..*self },
            }
        }
    }

    /// One tick at `now`. Does nothing within a quarter of a second after a
    /// place was told, and only goes back to the start while the avatar is
    /// writing. Else it tells the next place in use, and says whether the
    /// store is due to be saved.
    pub fn step(&mut self, now: u64, bundle: &mut AvatarBundle) -> (save: bool)
        requires
            old(self).wf(),
        ensures
            final(self).wf(),
            *final(self) == old(self).stepped(now),
            final(bundle)@ == old(bundle)@ + old(self).step_messages(now),
            save == old(self).step_saves(now),
    {
        if now < self.last_tick || now - self.last_tick < TELL_INTERVAL_MS {
            assert(bundle@ =~= old(bundle)@ + old(self).step_messages(now));
            return false;
        }
        if self.ext_index != 0 {
            self.int_index = 0;
            assert(bundle@ =~= old(bundle)@ + old(self).step_messages(now));
            return false;
        }
        if let Some(value) = self.next() {
            self.last_tick = now;
            bundle.send_parameter(INT_INDEX_PARAM, OscValue::Int(self.int_index as i32));
            bundle.send_parameter(INT_VALUE_PARAM, OscValue::Float(value));
            assert(bundle@ =~= old(bundle)@ + Self::told(self.int_index as int, value));
        }
        assert(bundle@ =~= old(bundle)@ + old(self).step_messages(now));
        if now > self.last_save && now - self.last_save > SAVE_INTERVAL_MS {
            self.last_save = now;
            true
        } else {
            false
        }
    }
}

} // verus!
