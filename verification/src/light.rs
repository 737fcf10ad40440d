//! The light: a coloured point that turns about the vertical axis, and the
//! record of it that is uploaded each frame.

use crate::layout::{packed, push_row, words_to_bytes};
use vstd::prelude::*;

verus! {

/// How fast the light turns, in degrees each second, as a single-precision
/// bit pattern.
#[derive(Clone, Copy, Debug, PartialEq, Eq, Structural)]
pub struct Controller {
    pub angular_velocity: u32,
}

impl Controller {
    /// A controller that turns the light at the velocity given.
    pub fn new(angular_velocity: u32) -> (r: Self)
        ensures
            r.angular_velocity == angular_velocity,
    {
        Controller { angular_velocity }
    }
}

/// The record of the light that a shader reads: the position and the colour,
/// each followed by a word of padding that fills its row of 16 bytes. It is
/// 32 bytes long.
#[derive(Clone, Copy, Debug)]
pub struct FlatLight {
    pub position: [u32; 3],
    pub _padding: u32,
    pub color: [u32; 3],
    pub _padding2: u32,
}

impl FlatLight {
    /// The 8 words of the record in the order in which they are stored.
    pub open spec fn words(&self) -> Seq<u32> {
        self.position@ + seq![self._padding] + self.color@ + seq![self._padding2]
    }

    /// The words of the record in storage order.
    pub fn to_words(&self) -> (r: Vec<u32>)
        ensures
            r@ == self.words(),
            r@.len() == 8,
    {
        let mut words: Vec<u32> = Vec::new();
        push_row(&mut words, &self.position);
        words.push(self._padding);
        push_row(&mut words, &self.color);
        words.push(self._padding2);
        assert(words@ =~= self.words());
        words
    }

    /// The bytes of the record as they are written to the buffer: a whole
    /// number of rows of 16 bytes.
    pub fn to_bytes(&self) -> (r: Vec<u8>)
        ensures
            packed(self.words(), r@),
            r@.len() == 32,
            r@.len() % 16 == 0,
    {
        let words = self.to_words();
        words_to_bytes(&words)
    }
}

/// The light: where it is, its colour, and the controller that turns it.
/// Scalars are single-precision bit patterns.
#[derive(Clone, Copy, Debug)]
pub struct Light {
    pub position: [u32; 3],
    pub color: [u32; 3],
    pub controller: Controller,
}

impl Light {
    /// The record of the light with zeroed padding.
    pub open spec fn flat(self) -> FlatLight {
        FlatLight { position: self.position, _padding: 0, color: self.color, _padding2: 0 }
    }

    /// Starts a light of which nothing is set yet.
    pub fn build() -> (r: LightBuilder<Option<[u32; 3]>, Option<[u32; 3]>, Option<Controller>>)
        ensures
            r.position is None,
            r.color is None,
            r.control is None,
    {
        LightBuilder { position: None, color: None, control: None }
    }

    /// The record of the light with zeroed padding.
    pub fn flattened(&self) -> (r: FlatLight)
        ensures
            r == self.flat(),
    {
        FlatLight { position: self.position, _padding: 0, color: self.color, _padding2: 0 }
    }

    /// The 32 bytes of the record of the light, as they are written to the
    /// buffer at offset 0.
    pub fn uniform_bytes(&self) -> (r: Vec<u8>)
        ensures
            packed(self.flat().words(), r@),
            r@.len() == 32,
    {
        self.flattened().to_bytes()
    }
}

/// A light in the making. Each of the three parts has the type of what was
/// set for it, so that only a builder with all three set can be finished.
pub struct LightBuilder<P, C, L> {
    pub position: P,
    pub color: C,
    pub control: L,
}

impl<P, C, L> LightBuilder<P, C, L> {
    /// Sets the position.
    pub fn position(self, position: [u32; 3]) -> (r: LightBuilder<[u32; 3], C, L>)
        ensures
            r.position == position,
            r.color == self.color,
            r.control == self.control,
    {
        LightBuilder { position, color: self.color, control: self.control }
    }

    /// Sets the colour.
    pub fn color(self, color: [u32; 3]) -> (r: LightBuilder<P, [u32; 3], L>)
        ensures
            r.position == self.position,
            r.color == color,
            r.control == self.control,
    {
        LightBuilder { position: self.position, color, control: self.control }
    }

    /// Sets the velocity at which the light turns.
    pub fn controller(self, angular_velocity: u32) -> (r: LightBuilder<P, C, Controller>)
        ensures
            r.position == self.position,
            r.color == self.color,
            r.control.angular_velocity == angular_velocity,
    {
        LightBuilder {
            position: self.position,
            color: self.color,
            control: Controller::new(angular_velocity),
        }
    }
}

impl LightBuilder<[u32; 3], [u32; 3], Controller> {
    /// The light of the three parts.
    pub fn finalize(self) -> (r: Light)
        ensures
            r.position == self.position,
            r.color == self.color,
            r.controller == self.control,
    {
        Light { position: self.position, color: self.color, controller: self.control }
    }
}

} // verus!
