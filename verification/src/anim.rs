//! Sprite animations: which variant of an animation plays, on which frame,
//! and what follows when a variant runs out of frames.
use vstd::prelude::*;
use std::marker::PhantomData;

verus! {

/// What follows the last frame of a variant.
#[derive(Clone, Copy, Debug, PartialEq, Eq, Structural)]
pub enum AnimNextIndex {
    /// Play this variant (an index into the table) from its first frame.
    Index(usize),
    /// Stop animating: the animation and its sprite are removed.
    Remove,
    /// The animated entity is removed.
    Despawn,
}

/// The frame data of a variant of an animation.
#[derive(Clone, Copy, Debug, PartialEq, Eq, Structural)]
pub struct AnimFrames {
    pub frame_count: usize,
    pub next: AnimNextIndex,
}

/// Every variant that a table names as next is in the table.
pub open spec fn table_wf(table: Seq<AnimFrames>) -> bool {
    forall|i: int|
        0 <= i < table.len() ==> match (#[trigger] table[i]).next {
            AnimNextIndex::Index(n) => n < table.len(),
            _ => true,
        }
}

/// An animation: an enumeration of variants, numbered as in its table.
pub trait Anim: Sized + Copy {
    spec fn spec_index(self) -> usize;

    spec fn spec_from_index(index: usize) -> Self;

    /// Numbering a variant and reading the number back gives the variant.
    proof fn lemma_index_roundtrip(a: Self)
        ensures
            Self::spec_from_index(a.spec_index()) == a,
    ;

    fn index(&self) -> (i: usize)
        ensures
            i == self.spec_index(),
    ;

    fn from_index(index: usize) -> (a: Self)
        ensures
            a == Self::spec_from_index(index),
    ;
}

/// What one elapsed frame of an animation asks of the game.
#[derive(Clone, Copy, Debug, PartialEq, Eq, Structural)]
pub enum FrameStep {
    /// Show the next frame.
    Continue,
    /// Another variant starts: load its sprite sheet.
    Reload,
    /// Remove the animation and its sprite.
    Remove,
    /// Remove the animated entity.
    Despawn,
}

/// The state of an animation on an entity.
pub struct AnimMan<A: Anim> {
    variant_index: usize,
    loaded_variant_index: usize,
    frame: usize,
    paused: bool,
    visible: bool,
    flip_x: bool,
    flip_y: bool,
    _phantom: PhantomData<A>,
}

impl<A: Anim> AnimMan<A> {
    /// The number of the variant that plays.
    pub closed spec fn variant(&self) -> usize {
        self.variant_index
    }

    /// The number of the variant whose sprite sheet is loaded.
    pub closed spec fn loaded_variant(&self) -> usize {
        self.loaded_variant_index
    }

    pub closed spec fn spec_frame(&self) -> usize {
        self.frame
    }

    /// The display flags: paused, visible, flipped horizontally, flipped vertically.
    pub closed spec fn flags(&self) -> (bool, bool, bool, bool) {
        (self.paused, self.visible, self.flip_x, self.flip_y)
    }

    pub open spec fn spec_get(&self) -> A {
        A::spec_from_index(self.variant())
    }

    /// `initial` plays from its first frame, visible and not flipped.
    pub fn new(initial: A) -> (m: AnimMan<A>)
        ensures
            m.variant() == initial.spec_index(),
            m.loaded_variant() == initial.spec_index(),
            m.spec_frame() == 0,
            m.spec_get() == initial,
            m.flags() == (false, true, false, false),
    {
        let index = initial.index();
        proof {
            A::lemma_index_roundtrip(initial);
        }
        AnimMan {
            variant_index: index,
            loaded_variant_index: index,
            frame: 0,
            paused: false,
            visible: true,
            flip_x: false,
            flip_y: false,
            _phantom: PhantomData,
        }
    }

    pub fn with_flip_x(self, flip_x: bool) -> (m: AnimMan<A>)
        ensures
            m.flags() == (self.flags().0, self.flags().1, flip_x, self.flags().3),
            m.variant() == self.variant(),
            m.loaded_variant() == self.loaded_variant(),
            m.spec_frame() == self.spec_frame(),
    {
        let mut m = self;
        m.flip_x = flip_x;
        m
    }

    /// Plays `value`; a different variant than the one playing starts from
    /// its first frame (and its frame timer restarts). Returns whether the
    /// variant changed.
    pub fn set(&mut self, value: A) -> (changed: bool)
        ensures
            final(self).spec_get() == value,
            final(self).variant() == value.spec_index(),
            changed == (value.spec_index() != old(self).variant()),
            final(self).spec_frame() == if changed {
                0
            } else {
                old(self).spec_frame()
            },
            final(self).loaded_variant() == old(self).loaded_variant(),
            final(self).flags() == old(self).flags(),
    {
        proof {
            A::lemma_index_roundtrip(value);
        }
        let new_index = value.index();
        if new_index != self.variant_index {
            self.variant_index = new_index;
            self.frame = 0;
            true
        } else {
            false
        }
    }

    pub fn set_flip_x(&mut self, flip_x: bool)
        ensures
            final(self).flags() == (old(self).flags().0, old(self).flags().1, flip_x, old(self).flags().3),
            final(self).variant() == old(self).variant(),
            final(self).loaded_variant() == old(self).loaded_variant(),
            final(self).spec_frame() == old(self).spec_frame(),
    {
        self.flip_x = flip_x;
    }

    /// The variant that plays.
    pub fn get(&self) -> (a: A)
        ensures
            a == self.spec_get(),
    {
        A::from_index(self.variant_index)
    }

    /// The number of the variant that plays.
    pub fn current(&self) -> (i: usize)
        ensures
            i == self.variant(),
    {
        self.variant_index
    }

    pub fn frame(&self) -> (f: usize)
        ensures
            f == self.spec_frame(),
    {
        self.frame
    }

    /// Whether the playing variant's sprite sheet still has to be loaded.
    pub fn needs_reload(&self) -> (b: bool)
        ensures
            b == (self.variant() != self.loaded_variant()),
    {
        self.variant_index != self.loaded_variant_index
    }

    /// The playing variant's sprite sheet is loaded.
    pub fn mark_loaded(&mut self)
        ensures
            final(self).loaded_variant() == old(self).variant(),
            final(self).variant() == old(self).variant(),
            final(self).spec_frame() == old(self).spec_frame(),
            final(self).flags() == old(self).flags(),
    {
        self.loaded_variant_index = self.variant_index;
    }

    /// One frame's time has elapsed: the next frame, or, past the last
    /// frame of the variant, what the table says follows.
    pub fn step_frame(&mut self, table: &Vec<AnimFrames>) -> (step: FrameStep)
        requires
            table_wf(table@),
            old(self).variant() < table@.len(),
            old(self).spec_frame() < usize::MAX,
        ensures
            final(self).variant() < table@.len(),
            final(self).flags() == old(self).flags(),
            old(self).spec_frame() + 1 < table@[old(self).variant() as int].frame_count ==> step
                == FrameStep::Continue && final(self).spec_frame() == old(self).spec_frame() + 1
                && final(self).variant() == old(self).variant() && final(self).loaded_variant()
                == old(self).loaded_variant(),
            old(self).spec_frame() + 1 >= table@[old(self).variant() as int].frame_count ==> match table@[old(self).variant() as int].next {
                AnimNextIndex::Index(n) => step == FrameStep::Reload && final(self).variant() == n
                    && final(self).spec_frame() == 0 && final(self).loaded_variant() == n,
                AnimNextIndex::Remove => step == FrameStep::Remove,
                AnimNextIndex::Despawn => step == FrameStep::Despawn,
            },
    {
        self.frame = self.frame + 1;
        let variant = table[self.variant_index];
        if self.frame >= variant.frame_count {
            match variant.next {
                AnimNextIndex::Index(next_index) => {
                    self.variant_index = next_index;
                    self.frame = 0;
                    self.loaded_variant_index = self.variant_index;
                    FrameStep::Reload
                },
                AnimNextIndex::Remove => FrameStep::Remove,
                AnimNextIndex::Despawn => FrameStep::Despawn,
            }
        } else {
            FrameStep::Continue
        }
    }

    pub fn is_paused(&self) -> (b: bool)
        ensures
            b == self.flags().0,
    {
        self.paused
    }

    pub fn is_visible(&self) -> (b: bool)
        ensures
            b == self.flags().1,
    {
        self.visible
    }

    pub fn flip_x(&self) -> (b: bool)
        ensures
            b == self.flags().2,
    {
        self.flip_x
    }

    pub fn flip_y(&self) -> (b: bool)
        ensures
            b == self.flags().3,
    {
        self.flip_y
    }

    pub fn set_paused(&mut self, paused: bool)
        ensures
            final(self).flags() == (paused, old(self).flags().1, old(self).flags().2, old(self).flags().3),
            final(self).variant() == old(self).variant(),
            final(self).loaded_variant() == old(self).loaded_variant(),
            final(self).spec_frame() == old(self).spec_frame(),
    {
        self.paused = paused;
    }

    pub fn set_visible(&mut self, visible: bool)
        ensures
            final(self).flags() == (old(self).flags().0, visible, old(self).flags().2, old(self).flags().3),
            final(self).variant() == old(self).variant(),
            final(self).loaded_variant() == old(self).loaded_variant(),
            final(self).spec_frame() == old(self).spec_frame(),
    {
        self.visible = visible;
    }
}

} // verus!
