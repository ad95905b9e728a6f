//! The clip descriptor model: clips, their playback modifiers, and the
//! ordered animation they form.

use vstd::prelude::*;
use vstd::string::StringExecFns;
use crate::error::ConfigError;

verus! {

/// Per-clip policy for whether an external stop request may cut it short.
#[derive(Clone, Copy, Debug, PartialEq, Eq, Structural)]
pub enum ClipMode {
    /// The clip must finish playing uninterrupted.
    Complete,
    /// The clip may be cut short once it is playing.
    Interruptable,
    /// The clip keeps replaying until interrupted; clips after it would
    /// never play, so it may only stand last.
    Forever,
}

impl Default for ClipMode {
    /// A clip that declares no mode must be played to completion.
    fn default() -> (m: Self)
        ensures
            m == ClipMode::Complete,
    {
        ClipMode::Complete
    }
}

/// The mathematical image of a clip.
pub ghost struct PartView {
    pub file: Seq<char>,
    pub mode: ClipMode,
    pub repeat: nat,
}

impl PartView {
    /// Whether an interrupt request may cut this clip short while it plays.
    pub open spec fn interruptable(self) -> bool {
        self.mode == ClipMode::Interruptable || self.mode == ClipMode::Forever
    }
}

/// One playable unit of the animation.
#[derive(Debug)]
pub struct Part {
    /// Path of the media asset: relative as declared in the descriptor,
    /// absolute once the animation's sources are resolved.
    pub file: String,
    /// Interruptability policy of the clip.
    pub mode: ClipMode,
    /// Number of additional replays beyond the first play; zero plays once.
    pub repeat: usize,
}

impl View for Part {
    type V = PartView;

    open spec fn view(&self) -> PartView {
        PartView { file: self.file@, mode: self.mode, repeat: self.repeat as nat }
    }
}

impl Clone for Part {
    fn clone(&self) -> (r: Self)
        ensures
            r == *self,
    {
        Part { file: self.file.clone(), mode: self.mode, repeat: self.repeat }
    }
}

impl PartialEq for Part {
    fn eq(&self, other: &Self) -> (r: bool) {
        self.file == other.file && self.mode == other.mode && self.repeat == other.repeat
    }
}

impl vstd::std_specs::cmp::PartialEqSpecImpl for Part {
    open spec fn obeys_eq_spec() -> bool {
        true
    }

    open spec fn eq_spec(&self, other: &Self) -> bool {
        self@ == other@
    }
}

impl Part {
    /// The resource locator handed to the media engine for this clip.
    pub fn url(&self) -> (r: String)
        ensures
            r@ == "file://"@ + self.file@,
    {
        let prefix: String = "file://".to_owned();
        prefix.concat(self.file.as_str())
    }

    /// Whether an interrupt request may cut this clip short while it plays.
    pub fn is_interruptable(&self) -> (r: bool)
        ensures
            r == self@.interruptable(),
    {
        self.mode == ClipMode::Interruptable || self.mode == ClipMode::Forever
    }
}

/// The forever mode may only appear on the last clip.
pub open spec fn spec_modes_valid(parts: Seq<PartView>) -> bool {
    forall|i: int|
        0 <= i < parts.len() && parts[i].mode == ClipMode::Forever ==> i == parts.len() - 1
}

/// The images of a run of clips, in order.
pub open spec fn part_views(parts: Seq<Part>) -> Seq<PartView> {
    parts.map_values(|p: Part| p@)
}

/// The ordered, validated collection of clips for one playback session.
/// Clip order is the declaration order of the descriptor; it is never
/// reordered.
#[derive(Debug)]
pub struct Animation {
    /// The clips, in declaration order.
    pub parts: Vec<Part>,
}

impl View for Animation {
    type V = Seq<PartView>;

    open spec fn view(&self) -> Seq<PartView> {
        part_views(self.parts@)
    }
}

impl PartialEq for Animation {
    fn eq(&self, other: &Self) -> (r: bool) {
        if self.parts.len() != other.parts.len() {
            proof {
                assert(self@.len() != other@.len());
            }
            return false;
        }
        let mut i: usize = 0;
        while i < self.parts.len()
            invariant
                0 <= i <= self.parts.len(),
                self.parts.len() == other.parts.len(),
                forall|j: int| 0 <= j < i ==> self@[j] == other@[j],
            decreases self.parts.len() - i,
        {
            if !(self.parts[i] == other.parts[i]) {
                assert(self@[i as int] != other@[i as int]);
                return false;
            }
            i += 1;
        }
        proof {
            assert(self@ =~= other@);
        }
        true
    }
}

impl vstd::std_specs::cmp::PartialEqSpecImpl for Animation {
    open spec fn obeys_eq_spec() -> bool {
        true
    }

    open spec fn eq_spec(&self, other: &Self) -> bool {
        self@ == other@
    }
}

impl Animation {
    /// Check that a clip with the forever mode, if any, is the last one; a
    /// clip standing after it would never be played.
    pub fn validate_modes(&self) -> (r: Result<(), ConfigError>)
        ensures
            r is Ok <==> spec_modes_valid(self@),
            r is Err ==> r matches Err(ConfigError::WrongModeForeverPart),
    {
        let n = self.parts.len();
        let mut i: usize = 0;
        while i < n
            invariant
                0 <= i <= n,
                n == self.parts.len(),
                forall|j: int|
                    0 <= j < i && self@[j].mode == ClipMode::Forever ==> j == n - 1,
            decreases n - i,
        {
            if i + 1 < n {
                match self.parts[i].mode {
                    ClipMode::Forever => {
                        proof {
                            assert(self@[i as int].mode == ClipMode::Forever);
                        }
                        return Err(ConfigError::WrongModeForeverPart);
                    },
                    _ => {},
                }
            }
            i += 1;
        }
        Ok(())
    }

    /// Install the resolved, absolute source path of every clip, checking
    /// eagerly that each asset is present so that failures surface before
    /// playback begins. `sources[i]` is the resolved path of clip `i`, and
    /// `present[i]` says whether a file exists there. On the first absent
    /// asset the animation is left unchanged and the error names that path.
    pub fn resolve_sources(&mut self, sources: Vec<String>, present: &Vec<bool>) -> (r: Result<
        (),
        ConfigError,
    >)
        requires
            sources@.len() == old(self)@.len(),
            present@.len() == old(self)@.len(),
        ensures
            r is Ok <==> (forall|i: int| 0 <= i < present@.len() ==> present@[i]),
            r is Ok ==> {
                &&& final(self)@.len() == old(self)@.len()
                &&& forall|i: int|
                    0 <= i < old(self)@.len() ==> final(self)@[i] == (PartView {
                        file: sources@[i]@,
                        ..old(self)@[i]
                    })
            },
            r is Err ==> *final(self) == *old(self),
            r is Err ==> exists|k: int|
                {
                    &&& 0 <= k < present@.len()
                    &&& !present@[k]
                    &&& (forall|j: int| 0 <= j < k ==> present@[j])
                    &&& (r matches Err(ConfigError::MissingAssetError(p)) && p@ == sources@[k]@)
                },
    {
        let n = self.parts.len();
        let mut i: usize = 0;
        while i < n
            invariant
                0 <= i <= n,
                n == self.parts.len(),
                sources@.len() == n,
                present@.len() == n,
                forall|j: int| 0 <= j < i ==> present@[j],
            decreases n - i,
        {
            if !present[i] {
                return Err(ConfigError::MissingAssetError(sources[i].clone()));
            }
            i += 1;
        }
        let mut resolved: Vec<Part> = Vec::new();
        let mut k: usize = 0;
        while k < n
            invariant
                0 <= k <= n,
                n == self.parts.len(),
                sources@.len() == n,
                resolved@.len() == k,
                forall|j: int|
                    0 <= j < k ==> (#[trigger] resolved@[j])@ == (PartView {
                        file: sources@[j]@,
                        ..self@[j]
                    }),
            decreases n - k,
        {
            resolved.push(
                Part {
                    file: sources[k].clone(),
                    mode: self.parts[k].mode,
                    repeat: self.parts[k].repeat,
                },
            );
            k += 1;
        }
        self.parts = resolved;
        Ok(())
    }
}

} // verus!
