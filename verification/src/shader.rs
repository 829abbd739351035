//! The parameters of a shader, the values passed to every shader, and their
//! layout in the buffers that the fragment stage reads.

use vstd::prelude::*;
use crate::number::{pad_to, padding_to, push_word, word_bytes, zeros, Single};

verus! {

/// Two unsigned components.
#[derive(Clone, Copy, Debug, PartialEq, Eq, Structural)]
pub struct UVector2 {
    pub x: u32,
    pub y: u32,
}

/// Two single-precision components.
#[derive(Clone, Copy, Debug, PartialEq, Eq, Structural)]
pub struct Vector2 {
    pub x: Single,
    pub y: Single,
}

/// Three single-precision components.
#[derive(Clone, Copy, Debug, PartialEq, Eq, Structural)]
pub struct Vector3 {
    pub x: Single,
    pub y: Single,
    pub z: Single,
}

impl Vector2 {
    /// The vector whose components are all `0.0`.
    pub fn zero() -> (v: Vector2)
        ensures
            v == (Vector2 { x: Single { bits: 0 }, y: Single { bits: 0 } }),
    {
        Vector2 { x: Single::zero(), y: Single::zero() }
    }

    /// The bytes of the components, in order.
    pub open spec fn bytes(self) -> Seq<u8> {
        word_bytes(self.x.bits) + word_bytes(self.y.bits)
    }
}

impl Vector3 {
    /// The vector whose components are all `0.0`.
    pub fn zero() -> (v: Vector3)
        ensures
            v == (Vector3 { x: Single { bits: 0 }, y: Single { bits: 0 }, z: Single { bits: 0 } }),
    {
        Vector3 { x: Single::zero(), y: Single::zero(), z: Single::zero() }
    }

    /// The bytes of the components, in order.
    pub open spec fn bytes(self) -> Seq<u8> {
        word_bytes(self.x.bits) + word_bytes(self.y.bits) + word_bytes(self.z.bits)
    }
}

/// The number of bytes that [`Globals::as_bytes`] returns.
pub const GLOBALS_SIZE: u32 = 32;

/// The values passed to the fragment shader on every frame.
#[derive(Clone, Copy, Debug, PartialEq, Eq, Structural)]
pub struct Globals {
    /// Resolution of the drawing area
    pub resolution: UVector2,
    /// Position of the mouse pointer
    pub mouse: UVector2,
    /// Accumulated mouse wheel
    pub mouse_wheel: Single,
    /// Width of the drawing area divided by its height
    pub ratio: Single,
    /// Running time in seconds
    pub time: Single,
    /// Number of frames drawn
    pub frame: u32,
}

impl Globals {
    /// The globals after a restart: frame counter, time and mouse wheel are
    /// zero, the rest is kept.
    pub open spec fn restarted(self) -> Globals {
        Globals {
            resolution: self.resolution,
            mouse: self.mouse,
            mouse_wheel: Single { bits: 0 },
            ratio: self.ratio,
            time: Single { bits: 0 },
            frame: 0,
        }
    }

    /// The layout of the globals as push constants: every field in order,
    /// each vector on a multiple of eight bytes, each scalar on a multiple of
    /// four, which leaves no gap.
    pub open spec fn bytes(self) -> Seq<u8> {
        word_bytes(self.resolution.x) + word_bytes(self.resolution.y) + word_bytes(self.mouse.x)
            + word_bytes(self.mouse.y) + word_bytes(self.mouse_wheel.bits) + word_bytes(
            self.ratio.bits,
        ) + word_bytes(self.time.bits) + word_bytes(self.frame)
    }

    /// Sets frame counter, time and mouse wheel back to zero.
    pub fn reset(&mut self)
        ensures
            *final(self) == old(self).restarted(),
    {
        self.frame = 0;
        self.time = Single::zero();
        self.mouse_wheel = Single::zero();
    }

    /// The globals as the fragment stage reads them.
    pub fn as_bytes(&self) -> (out: Vec<u8>)
        ensures
            out@ == self.bytes(),
            out@.len() == GLOBALS_SIZE,
    {
        let mut out: Vec<u8> = Vec::new();
        push_word(&mut out, self.resolution.x);
        push_word(&mut out, self.resolution.y);
        push_word(&mut out, self.mouse.x);
        push_word(&mut out, self.mouse.y);
        push_word(&mut out, self.mouse_wheel.bits);
        push_word(&mut out, self.ratio.bits);
        push_word(&mut out, self.time.bits);
        push_word(&mut out, self.frame);
        assert(out@ =~= self.bytes());
        out
    }
}

/// One tweakable value of a shader.
#[derive(Clone, Debug)]
#[allow(inconsistent_fields)]
pub enum Slider {
    Float { name: String, min: Single, max: Single, value: Single, default: Single },
    Uint { name: String, value: u32, min: u32, max: u32, default: u32 },
    Bool { name: String, value: u32, default: u32 },
    Vec2 { name: String, value: Vector2, default: Vector2 },
    Vec3 { name: String, value: Vector3, default: Vector3 },
    Color { name: String, value: Vector3, default: Vector3 },
}

impl Slider {
    /// The name of the field that declares the parameter.
    pub open spec fn spec_name(self) -> Seq<char> {
        match self {
            Slider::Float { name, .. } => name@,
            Slider::Uint { name, .. } => name@,
            Slider::Bool { name, .. } => name@,
            Slider::Vec2 { name, .. } => name@,
            Slider::Vec3 { name, .. } => name@,
            Slider::Color { name, .. } => name@,
        }
    }

    /// The multiple on which the value starts in the parameter buffer.
    pub open spec fn alignment(self) -> nat {
        match self {
            Slider::Float { .. } => 4,
            Slider::Uint { .. } => 4,
            Slider::Bool { .. } => 4,
            Slider::Vec2 { .. } => 8,
            Slider::Vec3 { .. } => 16,
            Slider::Color { .. } => 16,
        }
    }

    /// The bytes of the current value.
    pub open spec fn value_bytes(self) -> Seq<u8> {
        match self {
            Slider::Float { value, .. } => word_bytes(value.bits),
            Slider::Uint { value, .. } => word_bytes(value),
            Slider::Bool { value, .. } => word_bytes(value),
            Slider::Vec2 { value, .. } => value.bytes(),
            Slider::Vec3 { value, .. } => value.bytes(),
            Slider::Color { value, .. } => value.bytes(),
        }
    }

    /// The current value is the default.
    pub open spec fn at_default(self) -> bool {
        match self {
            Slider::Float { value, default, .. } => value == default,
            Slider::Uint { value, default, .. } => value == default,
            Slider::Bool { value, default, .. } => value == default,
            Slider::Vec2 { value, default, .. } => value == default,
            Slider::Vec3 { value, default, .. } => value == default,
            Slider::Color { value, default, .. } => value == default,
        }
    }

    /// The same parameter with its value set to the default.
    pub open spec fn after_reset(self) -> Slider {
        match self {
            Slider::Float { name, min, max, value, default } => Slider::Float {
                name,
                min,
                max,
                value: default,
                default,
            },
            Slider::Uint { name, value, min, max, default } => Slider::Uint {
                name,
                value: default,
                min,
                max,
                default,
            },
            Slider::Bool { name, value, default } => Slider::Bool { name, value: default, default },
            Slider::Vec2 { name, value, default } => Slider::Vec2 { name, value: default, default },
            Slider::Vec3 { name, value, default } => Slider::Vec3 { name, value: default, default },
            Slider::Color { name, value, default } => Slider::Color {
                name,
                value: default,
                default,
            },
        }
    }

    /// What writing the value makes of a buffer: zero bytes up to the
    /// alignment of the value, then the bytes of the value.
    pub open spec fn written_after(self, before: Seq<u8>) -> Seq<u8> {
        before + zeros(padding_to(before.len(), self.alignment())) + self.value_bytes()
    }

    /// The parameter with a new value: a number for a numeric parameter,
    /// kept inside its bounds. Any other parameter is left as it is.
    pub open spec fn with_float(self, to: Single) -> Slider {
        match self {
            Slider::Float { name, min, max, value, default } => Slider::Float {
                name,
                min,
                max,
                value: to.clamped(min, max),
                default,
            },
            _ => self,
        }
    }

    /// The parameter with a new value: an integer for an unsigned
    /// parameter, kept inside its bounds where they lie the right way
    /// round. Any other parameter is left as it is.
    pub open spec fn with_uint(self, to: u32) -> Slider {
        match self {
            Slider::Uint { name, value, min, max, default } => Slider::Uint {
                name,
                value: if min > max {
                    to
                } else if to < min {
                    min
                } else if to > max {
                    max
                } else {
                    to
                },
                min,
                max,
                default,
            },
            _ => self,
        }
    }

    /// The parameter with a new value: one or zero for a boolean parameter.
    /// Any other parameter is left as it is.
    pub open spec fn with_bool(self, to: bool) -> Slider {
        match self {
            Slider::Bool { name, value, default } => Slider::Bool {
                name,
                value: if to {
                    1
                } else {
                    0
                },
                default,
            },
            _ => self,
        }
    }

    /// Gives a numeric parameter a new value, kept inside its bounds.
    pub fn set_float(&mut self, to: Single)
        ensures
            *final(self) == old(self).with_float(to),
    {
        match self {
            Slider::Float { min, max, value, .. } => {
                *value = to.clamp(*min, *max);
            },
            _ => {},
        }
    }

    /// Gives an unsigned parameter a new value, kept inside its bounds.
    pub fn set_uint(&mut self, to: u32)
        ensures
            *final(self) == old(self).with_uint(to),
    {
        match self {
            Slider::Uint { min, max, value, .. } => {
                *value = if *min > *max {
                    to
                } else if to < *min {
                    *min
                } else if to > *max {
                    *max
                } else {
                    to
                };
            },
            _ => {},
        }
    }

    /// Switches a boolean parameter on or off.
    pub fn set_bool(&mut self, to: bool)
        ensures
            *final(self) == old(self).with_bool(to),
    {
        match self {
            Slider::Bool { value, .. } => {
                *value = if to {
                    1
                } else {
                    0
                };
            },
            _ => {},
        }
    }

    /// Sets the value back to the default.
    pub fn reset(&mut self)
        ensures
            *final(self) == old(self).after_reset(),
    {
        match self {
            Slider::Float { value, default, .. } => {
                *value = *default;
            },
            Slider::Uint { value, default, .. } => {
                *value = *default;
            },
            Slider::Bool { value, default, .. } => {
                *value = *default;
            },
            Slider::Vec2 { value, default, .. } => {
                *value = *default;
            },
            Slider::Vec3 { value, default, .. } => {
                *value = *default;
            },
            Slider::Color { value, default, .. } => {
                *value = *default;
            },
        }
    }

    /// Writes the value at the end of `buf`, behind the padding that its
    /// alignment asks for.
    pub fn write(&self, buf: &mut Vec<u8>)
        ensures
            final(buf)@ == self.written_after(old(buf)@),
    {
        match self {
            Slider::Float { value, .. } => {
                pad_to(buf, 4);
                push_word(buf, value.bits);
            },
            Slider::Uint { value, .. } => {
                pad_to(buf, 4);
                push_word(buf, *value);
            },
            Slider::Bool { value, .. } => {
                pad_to(buf, 4);
                push_word(buf, *value);
            },
            Slider::Vec2 { value, .. } => {
                pad_to(buf, 8);
                push_word(buf, value.x.bits);
                push_word(buf, value.y.bits);
            },
            Slider::Vec3 { value, .. } => {
                pad_to(buf, 16);
                push_word(buf, value.x.bits);
                push_word(buf, value.y.bits);
                push_word(buf, value.z.bits);
            },
            Slider::Color { value, .. } => {
                pad_to(buf, 16);
                push_word(buf, value.x.bits);
                push_word(buf, value.y.bits);
                push_word(buf, value.z.bits);
            },
        }
        assert(buf@ =~= self.written_after(old(buf)@));
    }
}

/// The parameter buffer of a list of parameters: the values in order, each
/// behind the zero bytes that bring it to its alignment.
pub open spec fn packed(sliders: Seq<Slider>) -> Seq<u8>
    decreases sliders.len(),
{
    if sliders.len() == 0 {
        Seq::empty()
    } else {
        sliders.last().written_after(packed(sliders.drop_last()))
    }
}

/// The offset behind the last of a list of parameters: each takes the
/// padding up to its alignment and the bytes of its value.
pub open spec fn layout_end(sliders: Seq<Slider>) -> nat
    decreases sliders.len(),
{
    if sliders.len() == 0 {
        0
    } else {
        let before = layout_end(sliders.drop_last());
        before + padding_to(before, sliders.last().alignment()) + sliders.last().value_bytes().len()
    }
}

/// The offset at which the value of the parameter `i` starts.
pub open spec fn offset_of(sliders: Seq<Slider>, i: int) -> nat {
    let before = layout_end(sliders.take(i));
    before + padding_to(before, sliders[i].alignment())
}

/// Every parameter with its value set to the default.
pub open spec fn all_reset(sliders: Seq<Slider>) -> Seq<Slider> {
    Seq::new(sliders.len(), |i: int| sliders[i].after_reset())
}

/// What a shader's source declares beside its code.
#[derive(Clone, Debug)]
pub struct ShaderMetadata {
    /// The parameters, in the order of their declaration
    pub sliders: Vec<Slider>,
    /// The shader asks to be drawn once
    pub still_image: bool,
}

impl ShaderMetadata {
    /// Metadata without parameters, of an animated shader.
    pub fn new() -> (metadata: ShaderMetadata)
        ensures
            metadata.sliders@ == Seq::<Slider>::empty(),
            !metadata.still_image,
    {
        ShaderMetadata { sliders: Vec::new(), still_image: false }
    }

    /// The length of the parameter buffer.
    pub fn params_buffer_size(&self) -> (size: u64)
        ensures
            size == packed(self.sliders@).len(),
            size == layout_end(self.sliders@),
    {
        proof {
            lemma_packed_len(self.sliders@);
        }
        self.params_buffer().len() as u64
    }

    /// The current values of the parameters as the fragment stage reads
    /// them.
    pub fn params_buffer(&self) -> (bytes: Vec<u8>)
        ensures
            bytes@ == packed(self.sliders@),
    {
        let mut bytes: Vec<u8> = Vec::new();
        let mut i: usize = 0;
        while i < self.sliders.len()
            invariant
                i <= self.sliders.len(),
                bytes@ == packed(self.sliders@.take(i as int)),
            decreases self.sliders.len() - i,
        {
            self.sliders[i].write(&mut bytes);
            proof {
                let next = self.sliders@.take(i + 1);
                assert(next.drop_last() =~= self.sliders@.take(i as int));
                assert(next.last() == self.sliders@[i as int]);
            }
            i = i + 1;
        }
        assert(self.sliders@.take(i as int) =~= self.sliders@);
        bytes
    }

    /// Sets every parameter back to its default.
    pub fn reset_params(&mut self)
        ensures
            final(self).sliders@ == all_reset(old(self).sliders@),
            final(self).still_image == old(self).still_image,
    {
        let mut i: usize = 0;
        while i < self.sliders.len()
            invariant
                i <= self.sliders.len(),
                self.sliders.len() == old(self).sliders.len(),
                self.still_image == old(self).still_image,
                forall|k: int| 0 <= k < i ==> self.sliders@[k] == old(self).sliders@[k].after_reset(),
                forall|k: int| i <= k < self.sliders.len() ==> self.sliders@[k] == old(self).sliders@[k],
            decreases self.sliders.len() - i,
        {
            self.sliders[i].reset();
            i = i + 1;
        }
        assert(self.sliders@ =~= all_reset(old(self).sliders@));
    }
}

impl Default for ShaderMetadata {
    fn default() -> (metadata: ShaderMetadata)
        ensures
            metadata.sliders@ == Seq::<Slider>::empty(),
            !metadata.still_image,
    {
        ShaderMetadata::new()
    }
}

/// A loaded shader.
#[derive(Clone, Debug)]
pub struct Shader {
    /// Path to the main shader file
    pub main: String,
    /// Paths to all the files that the shader was made from
    pub sources: Vec<String>,
    /// What the source declares, where it could be read
    pub metadata: Option<ShaderMetadata>,
}

/// The parameter buffer ends at the offset that the layout gives: its length
/// is the sum of what each parameter takes, padding and value.
pub proof fn lemma_packed_len(sliders: Seq<Slider>)
    ensures
        packed(sliders).len() == layout_end(sliders),
    decreases sliders.len(),
{
    if sliders.len() > 0 {
        lemma_packed_len(sliders.drop_last());
    }
}

/// The buffer of the first parameters of a list starts the buffer of the
/// whole list.
pub proof fn lemma_packed_prefix(sliders: Seq<Slider>, n: int)
    requires
        0 <= n <= sliders.len(),
    ensures
        packed(sliders.take(n)).len() <= packed(sliders).len(),
        packed(sliders).subrange(0, packed(sliders.take(n)).len() as int) == packed(
            sliders.take(n),
        ),
    decreases sliders.len(),
{
    if n == sliders.len() {
        assert(sliders.take(n) =~= sliders);
        assert(packed(sliders).subrange(0, packed(sliders).len() as int) =~= packed(sliders));
    } else {
        lemma_packed_prefix(sliders.drop_last(), n);
        assert(sliders.drop_last().take(n) =~= sliders.take(n));
        let short = packed(sliders.take(n));
        let before = packed(sliders.drop_last());
        assert(packed(sliders).subrange(0, short.len() as int) =~= before.subrange(
            0,
            short.len() as int,
        ));
    }
}

/// Each value lies in the buffer at its offset, which is a multiple of its
/// alignment.
pub proof fn lemma_value_in_buffer(sliders: Seq<Slider>, i: int)
    requires
        0 <= i < sliders.len(),
    ensures
        offset_of(sliders, i) % sliders[i].alignment() == 0,
        offset_of(sliders, i) + sliders[i].value_bytes().len() <= packed(sliders).len(),
        packed(sliders).subrange(
            offset_of(sliders, i) as int,
            offset_of(sliders, i) + sliders[i].value_bytes().len() as int,
        ) == sliders[i].value_bytes(),
{
    let upto = sliders.take(i + 1);
    let before = packed(sliders.take(i));
    assert(upto.drop_last() =~= sliders.take(i));
    assert(upto.last() == sliders[i]);
    lemma_packed_len(sliders.take(i));
    lemma_packed_prefix(sliders, i + 1);
    crate::number::lemma_padding_aligns(before.len(), sliders[i].alignment());
    let start = offset_of(sliders, i) as int;
    let end = start + sliders[i].value_bytes().len();
    assert(packed(upto).subrange(start, end) =~= sliders[i].value_bytes());
    assert(packed(sliders).subrange(start, end) =~= packed(sliders).subrange(
        0,
        packed(upto).len() as int,
    ).subrange(start, end));
}

/// After a reset every parameter is at its default.
pub proof fn lemma_reset_restores_default(slider: Slider)
    ensures
        slider.after_reset().at_default(),
{
}

/// A second reset changes nothing.
pub proof fn lemma_reset_idempotent(slider: Slider)
    ensures
        slider.after_reset().after_reset() == slider.after_reset(),
{
}

/// Resetting every parameter twice is resetting every parameter once, and
/// leaves each at its default.
pub proof fn lemma_all_reset_idempotent(sliders: Seq<Slider>)
    ensures
        all_reset(all_reset(sliders)) == all_reset(sliders),
        forall|i: int| 0 <= i < sliders.len() ==> (#[trigger] all_reset(sliders)[i]).at_default(),
{
    assert(all_reset(all_reset(sliders)) =~= all_reset(sliders));
}

/// The two lists hold parameters of the same kinds in the same order.
pub open spec fn same_kinds(a: Seq<Slider>, b: Seq<Slider>) -> bool {
    &&& a.len() == b.len()
    &&& forall|i: int|
        0 <= i < a.len() ==> (#[trigger] a[i]).alignment() == b[i].alignment()
            && a[i].value_bytes().len() == b[i].value_bytes().len()
}

/// The layout depends on the kinds of the parameters alone: whatever their
/// values, parameters of the same kinds take a buffer of the same length.
pub proof fn lemma_same_kinds_same_layout(a: Seq<Slider>, b: Seq<Slider>)
    requires
        same_kinds(a, b),
    ensures
        layout_end(a) == layout_end(b),
    decreases a.len(),
{
    if a.len() > 0 {
        assert(a.last() == a[a.len() - 1]);
        assert(b.last() == b[b.len() - 1]);
        assert forall|i: int| 0 <= i < a.len() - 1 implies (#[trigger] a.drop_last()[i]).alignment()
            == b.drop_last()[i].alignment() && a.drop_last()[i].value_bytes().len()
            == b.drop_last()[i].value_bytes().len() by {
            assert(a.drop_last()[i] == a[i]);
            assert(b.drop_last()[i] == b[i]);
        }
        lemma_same_kinds_same_layout(a.drop_last(), b.drop_last());
    }
}

/// A new value leaves a parameter its kind: its place and its length in the
/// buffer stay.
pub proof fn lemma_value_keeps_kind(slider: Slider, number: Single, count: u32, on: bool)
    ensures
        slider.after_reset().alignment() == slider.alignment(),
        slider.after_reset().value_bytes().len() == slider.value_bytes().len(),
        slider.with_float(number).alignment() == slider.alignment(),
        slider.with_float(number).value_bytes().len() == slider.value_bytes().len(),
        slider.with_uint(count).alignment() == slider.alignment(),
        slider.with_uint(count).value_bytes().len() == slider.value_bytes().len(),
        slider.with_bool(on).alignment() == slider.alignment(),
        slider.with_bool(on).value_bytes().len() == slider.value_bytes().len(),
{
}

/// A reset moves no value in the buffer.
pub proof fn lemma_reset_keeps_layout(sliders: Seq<Slider>)
    ensures
        layout_end(all_reset(sliders)) == layout_end(sliders),
{
    assert forall|i: int| 0 <= i < sliders.len() implies (#[trigger] all_reset(
        sliders,
    )[i]).alignment() == sliders[i].alignment() && all_reset(sliders)[i].value_bytes().len()
        == sliders[i].value_bytes().len() by {
        lemma_value_keeps_kind(sliders[i], Single { bits: 0 }, 0, false);
    }
    lemma_same_kinds_same_layout(all_reset(sliders), sliders);
}

} // verus!
