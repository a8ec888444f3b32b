//! The frame store: three ordered sequences of sprite images, and the rules
//! by which they are found on disk.
//!
//! The store is generic in the image type; it never looks at an image. Reading
//! files is the host's business: it asks which file comes next, tries to load
//! it, and offers the result.

use vstd::prelude::*;
use vstd::string::*;
use crate::animation::{FrameCounts, Phase};

verus! {

/// A place where assets are looked for, in order of preference.
#[derive(Clone, Copy, Debug, PartialEq, Eq, Structural)]
pub enum AssetRoot {
    /// The resources packaged with the application, relative to its executable.
    Packaged,
    /// The resources directory of a development run.
    Development,
    /// The resources directory inside the source tree.
    SourceTree,
}

/// The character of a decimal digit.
pub open spec fn digit_char(d: nat) -> char {
    if d == 0 {
        '0'
    } else if d == 1 {
        '1'
    } else if d == 2 {
        '2'
    } else if d == 3 {
        '3'
    } else if d == 4 {
        '4'
    } else if d == 5 {
        '5'
    } else if d == 6 {
        '6'
    } else if d == 7 {
        '7'
    } else if d == 8 {
        '8'
    } else {
        '9'
    }
}

/// A number in decimal, without leading zeros.
pub open spec fn decimal(n: nat) -> Seq<char>
    decreases n,
{
    if n < 10 {
        seq![digit_char(n)]
    } else {
        decimal(n / 10).push(digit_char(n % 10))
    }
}

/// Name of the file that holds frame `index` of the sequence `prefix`.
pub open spec fn spec_frame_file_name(prefix: Seq<char>, index: nat) -> Seq<char> {
    prefix + "_frame"@ + decimal(index) + ".png"@
}

/// Directory of the sprite frames below an asset root.
pub open spec fn spec_frames_dir(root: AssetRoot) -> Seq<char> {
    match root {
        AssetRoot::Packaged => "../Resources/resources/frames/"@,
        AssetRoot::Development => "resources/frames/"@,
        AssetRoot::SourceTree => "src-tauri/resources/frames/"@,
    }
}

/// Path of the display font below an asset root.
pub open spec fn spec_font_path(root: AssetRoot) -> Seq<char> {
    match root {
        AssetRoot::Packaged => "../Resources/resources/fonts/Chicle-Regular.ttf"@,
        AssetRoot::Development => "resources/fonts/Chicle-Regular.ttf"@,
        AssetRoot::SourceTree => "src-tauri/resources/fonts/Chicle-Regular.ttf"@,
    }
}

/// Where a frame is loaded from: the first preferred root that has the file,
/// and the source tree when neither of the others has it.
pub open spec fn spec_frame_root(packaged: bool, development: bool) -> AssetRoot {
    if packaged {
        AssetRoot::Packaged
    } else if development {
        AssetRoot::Development
    } else {
        AssetRoot::SourceTree
    }
}

/// Where the display font is loaded from: the first root that has the file, or
/// none, in which case the system font stands in.
pub open spec fn spec_font_root(packaged: bool, development: bool, source_tree: bool) -> Option<
    AssetRoot,
> {
    if packaged {
        Some(AssetRoot::Packaged)
    } else if development {
        Some(AssetRoot::Development)
    } else if source_tree {
        Some(AssetRoot::SourceTree)
    } else {
        None
    }
}

/// The file index that discovery asks for next: one past the frames found so
/// far, until an index was missing. Only the range of the index type ends
/// discovery otherwise.
pub open spec fn spec_next_index(found: nat, closed: bool) -> Option<usize> {
    if !closed && found < usize::MAX {
        Some((found + 1) as usize)
    } else {
        None
    }
}

/// What was found and whether discovery is closed, after the result of trying
/// the next index comes in: a frame is appended, a miss closes the sequence,
/// and once discovery is over nothing changes any more.
pub open spec fn spec_offer<I>(found: Seq<I>, closed: bool, frame: Option<I>) -> (Seq<I>, bool) {
    if spec_next_index(found.len(), closed) is None {
        (found, closed)
    } else {
        match frame {
            Some(image) => (found.push(image), false),
            None => (found, true),
        }
    }
}

/// A decimal digit as text.
fn digit_text(d: usize) -> (r: &'static str)
    requires
        d < 10,
    ensures
        r@ == seq![digit_char(d as nat)],
{
    proof {
        reveal_strlit("0");
        reveal_strlit("1");
        reveal_strlit("2");
        reveal_strlit("3");
        reveal_strlit("4");
        reveal_strlit("5");
        reveal_strlit("6");
        reveal_strlit("7");
        reveal_strlit("8");
        reveal_strlit("9");
    }
    if d == 0 {
        "0"
    } else if d == 1 {
        "1"
    } else if d == 2 {
        "2"
    } else if d == 3 {
        "3"
    } else if d == 4 {
        "4"
    } else if d == 5 {
        "5"
    } else if d == 6 {
        "6"
    } else if d == 7 {
        "7"
    } else if d == 8 {
        "8"
    } else {
        "9"
    }
}

/// Writes a number in decimal.
pub fn decimal_text(n: usize) -> (r: String)
    ensures
        r@ == decimal(n as nat),
    decreases n,
{
    if n < 10 {
        digit_text(n).to_owned()
    } else {
        let mut r = decimal_text(n / 10);
        r.append(digit_text(n % 10));
        r
    }
}

/// Name of the file that holds frame `index` of the sequence `prefix`.
pub fn frame_file_name(prefix: &str, index: usize) -> (r: String)
    ensures
        r@ == spec_frame_file_name(prefix@, index as nat),
{
    let mut r = prefix.to_owned();
    r.append("_frame");
    let number = decimal_text(index);
    r.append(number.as_str());
    r.append(".png");
    r
}

/// Path of a frame file below an asset root.
pub fn frame_path(root: AssetRoot, file_name: &str) -> (r: String)
    ensures
        r@ == spec_frames_dir(root) + file_name@,
{
    let mut r = match root {
        AssetRoot::Packaged => "../Resources/resources/frames/".to_owned(),
        AssetRoot::Development => "resources/frames/".to_owned(),
        AssetRoot::SourceTree => "src-tauri/resources/frames/".to_owned(),
    };
    r.append(file_name);
    r
}

/// Path of the display font below an asset root.
pub fn font_path(root: AssetRoot) -> (r: String)
    ensures
        r@ == spec_font_path(root),
{
    match root {
        AssetRoot::Packaged => "../Resources/resources/fonts/Chicle-Regular.ttf".to_owned(),
        AssetRoot::Development => "resources/fonts/Chicle-Regular.ttf".to_owned(),
        AssetRoot::SourceTree => "src-tauri/resources/fonts/Chicle-Regular.ttf".to_owned(),
    }
}

/// Picks the root to load a frame from, given which roots have the file.
pub fn choose_frame_root(packaged: bool, development: bool) -> (r: AssetRoot)
    ensures
        r == spec_frame_root(packaged, development),
{
    if packaged {
        AssetRoot::Packaged
    } else if development {
        AssetRoot::Development
    } else {
        AssetRoot::SourceTree
    }
}

/// Picks the root to load the display font from, given which roots have it.
pub fn choose_font_root(packaged: bool, development: bool, source_tree: bool) -> (r: Option<
    AssetRoot,
>)
    ensures
        r == spec_font_root(packaged, development, source_tree),
{
    if packaged {
        Some(AssetRoot::Packaged)
    } else if development {
        Some(AssetRoot::Development)
    } else if source_tree {
        Some(AssetRoot::SourceTree)
    } else {
        None
    }
}

/// One sequence while it is being discovered. Frames are numbered from one and
/// arrive in order; the first missing one closes the sequence, so what was
/// found has no gaps.
pub struct FrameSequence<I> {
    frames: Vec<I>,
    closed: bool,
}

impl<I> FrameSequence<I> {
    /// The frames found so far, in order.
    pub closed spec fn found(&self) -> Seq<I> {
        self.frames@
    }

    /// Whether an index was missing.
    pub closed spec fn is_closed(&self) -> bool {
        self.closed
    }

    /// An empty sequence at the start of discovery.
    pub fn new() -> (r: FrameSequence<I>)
        ensures
            r.found() == Seq::<I>::empty(),
            !r.is_closed(),
    {
        FrameSequence { frames: Vec::new(), closed: false }
    }

    /// Number of frames found so far.
    pub fn len(&self) -> (r: usize)
        ensures
            r == self.found().len(),
    {
        self.frames.len()
    }

    /// The file index to try next, or nothing when discovery is over.
    pub fn next_index(&self) -> (r: Option<usize>)
        ensures
            r == spec_next_index(self.found().len(), self.is_closed()),
    {
        if !self.closed && self.frames.len() < usize::MAX {
            Some(self.frames.len() + 1)
        } else {
            None
        }
    }

    /// Takes the result of trying the next index: a frame is appended, a miss
    /// closes the sequence. Once discovery is over, offers are dropped.
    pub fn offer(&mut self, frame: Option<I>)
        ensures
            final(self).found() == spec_offer(old(self).found(), old(self).is_closed(), frame).0,
            final(self).is_closed() == spec_offer(
                old(self).found(),
                old(self).is_closed(),
                frame,
            ).1,
    {
        if !self.closed && self.frames.len() < usize::MAX {
            match frame {
                Some(image) => {
                    self.frames.push(image);
                },
                None => {
                    self.closed = true;
                },
            }
        }
    }

    /// Ends discovery and hands out what was found.
    pub fn into_frames(self) -> (r: Vec<I>)
        ensures
            r@ == self.found(),
    {
        self.frames
    }
}

/// The three sequences of an overlay.
pub struct FrameSet<I> {
    pub spawn: Vec<I>,
    pub yawn: Vec<I>,
    pub idle: Vec<I>,
}

impl<I> FrameSet<I> {
    /// The frames of one phase.
    pub open spec fn sequence(&self, phase: Phase) -> Seq<I> {
        match phase {
            Phase::Spawn => self.spawn@,
            Phase::Yawn => self.yawn@,
            Phase::Idle => self.idle@,
        }
    }

    /// A store without frames.
    pub fn new() -> (r: FrameSet<I>)
        ensures
            forall|phase: Phase| r.sequence(phase) == Seq::<I>::empty(),
    {
        FrameSet { spawn: Vec::new(), yawn: Vec::new(), idle: Vec::new() }
    }

    /// How many frames each sequence holds.
    pub fn counts(&self) -> (r: FrameCounts)
        ensures
            r.spawn == self.sequence(Phase::Spawn).len(),
            r.yawn == self.sequence(Phase::Yawn).len(),
            r.idle == self.sequence(Phase::Idle).len(),
    {
        FrameCounts { spawn: self.spawn.len(), yawn: self.yawn.len(), idle: self.idle.len() }
    }

    /// The frame at a position of a phase, if the phase has that many.
    pub fn frame(&self, phase: Phase, index: usize) -> (r: Option<&I>)
        ensures
            match r {
                Some(image) => index < self.sequence(phase).len() && *image == self.sequence(
                    phase,
                )[index as int],
                None => index >= self.sequence(phase).len(),
            },
    {
        let frames = match phase {
            Phase::Spawn => &self.spawn,
            Phase::Yawn => &self.yawn,
            Phase::Idle => &self.idle,
        };
        if index < frames.len() {
            Some(&frames[index])
        } else {
            None
        }
    }

    /// Drops every frame.
    pub fn clear(&mut self)
        ensures
            forall|phase: Phase| final(self).sequence(phase) == Seq::<I>::empty(),
    {
        self.spawn.clear();
        self.yawn.clear();
        self.idle.clear();
    }
}

} // verus!
