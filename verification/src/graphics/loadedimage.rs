//! The growable texture and descriptor-set pool.
//!
//! Textures are appended to an insertion-ordered list and never removed; a
//! texture's position alone determines the descriptor set it is bound into
//! (`index / descriptor_size`) and its array offset within that set
//! (`index % descriptor_size`).  A new descriptor set is allocated only when
//! every existing set is completely full, and the pool has a fixed capacity
//! of sets.  Image bytes are decoded to RGBA through the external image
//! codec; the driver uploads the decoded bitmap and performs the descriptor
//! writes this module accounts for.

use vstd::prelude::*;

use crate::error::TextureError;

verus! {

/// A decoded RGBA bitmap: four bytes per pixel, row-major.
#[derive(Debug, Clone, PartialEq, Eq)]
pub struct RgbaBitmap {
    pub width: u32,
    pub height: u32,
    pub pixels: Vec<u8>,
}

impl RgbaBitmap {
    /// Four bytes for each of `width * height` pixels.
    pub open spec fn wf(self) -> bool {
        self.pixels@.len() == self.width * self.height * 4
    }
}

/// Where a texture is bound: which descriptor set, and at which offset of
/// that set's sampled-image array.
#[derive(Debug, Clone, Copy, PartialEq, Eq, Structural)]
pub struct TextureBinding {
    pub set_index: usize,
    pub array_offset: usize,
}

/// The descriptor sets needed for `k` textures with `d` image slots per
/// set: none for an empty pool, else one per started group of `d`.
pub open spec fn spec_sets_needed(k: nat, d: nat) -> nat
    recommends
        d >= 1,
{
    ((k + d - 1) / d as int) as nat
}

/// The binding of texture `i` with `d` image slots per set.
pub open spec fn spec_binding(i: nat, d: nat) -> TextureBinding
    recommends
        d >= 1,
{
    TextureBinding { set_index: (i as int / d as int) as usize, array_offset: (i as int % d as int) as usize }
}

/// Accounting of the texture list and the descriptor pool.
#[derive(Debug)]
pub struct TexturePool {
    /// How many textures have been loaded.
    pub texture_count: usize,
    /// How many descriptor sets have been allocated from the pool.
    pub descriptor_set_count: usize,
    /// Image slots per descriptor set.
    pub descriptor_size: usize,
    /// Fixed capacity of the pool, in sets.
    pub pool_size: usize,
}

impl TexturePool {
    /// Well-formedness: sets are allocated exactly as the texture count
    /// demands, never beyond the pool's fixed capacity, and the pool's
    /// dimensions are small enough that every product below fits a `usize`.
    pub open spec fn wf(self) -> bool {
        &&& 1 <= self.descriptor_size <= 0xFFFF
        &&& self.pool_size <= 0xFFFF
        &&& self.descriptor_set_count == spec_sets_needed(
            self.texture_count as nat,
            self.descriptor_size as nat,
        )
        &&& self.descriptor_set_count <= self.pool_size
    }

    /// An empty pool with `d` image slots per set and room for `pool_size`
    /// sets.
    pub fn new(descriptor_size: usize, pool_size: usize) -> (r: TexturePool)
        requires
            1 <= descriptor_size <= 0xFFFF,
            pool_size <= 0xFFFF,
        ensures
            r.wf(),
            r.texture_count == 0,
            r.descriptor_set_count == 0,
            r.descriptor_size == descriptor_size,
            r.pool_size == pool_size,
    {
        proof {
            vstd::arithmetic::div_mod::lemma_basic_div(descriptor_size as int - 1, descriptor_size as int);
        }
        TexturePool {
            texture_count: 0,
            descriptor_set_count: 0,
            descriptor_size,
            pool_size,
        }
    }

    /// Whether the next texture needs a descriptor set that does not exist
    /// yet: the list is empty or every allocated set is completely full.
    pub open spec fn spec_needs_new_set(self) -> bool {
        self.texture_count == self.descriptor_set_count * self.descriptor_size
    }

    /// Whether the pool can take one more texture.
    pub open spec fn spec_exhausted(self) -> bool {
        self.spec_needs_new_set() && self.descriptor_set_count == self.pool_size
    }

    /// Account for one more texture: allocate a new descriptor set if every
    /// existing one is full, and return where the texture is bound.  Fails
    /// exactly when a new set is needed but the pool is at capacity, and
    /// then changes nothing.
    pub fn register_texture(&mut self) -> (r: Result<TextureBinding, TextureError>)
        requires
            old(self).wf(),
        ensures
            final(self).wf(),
            final(self).descriptor_size == old(self).descriptor_size,
            final(self).pool_size == old(self).pool_size,
            old(self).spec_exhausted() ==> r == Err::<TextureBinding, TextureError>(
                TextureError::DescriptorPoolExhausted,
            ) && *final(self) == *old(self),
            !old(self).spec_exhausted() ==> r == Ok::<TextureBinding, TextureError>(
                spec_binding(old(self).texture_count as nat, old(self).descriptor_size as nat),
            ) && final(self).texture_count == old(self).texture_count + 1,
            !old(self).spec_exhausted() ==> final(self).descriptor_set_count == old(
                self,
            ).descriptor_set_count + (if old(self).spec_needs_new_set() {
                1int
            } else {
                0int
            }),
            r matches Ok(b) ==> (b.array_offset == 0 <==> old(self).spec_needs_new_set()),
            r matches Ok(b) ==> ((b.set_index == 0 && b.array_offset == 0) <==> old(
                self,
            ).texture_count == 0),
    {
        proof {
            lemma_sets_needed_bounds(self.texture_count as nat, self.descriptor_size as nat);
            vstd::arithmetic::mul::lemma_mul_inequality(
                self.descriptor_set_count as int,
                self.pool_size as int,
                self.descriptor_size as int,
            );
            vstd::arithmetic::mul::lemma_mul_upper_bound(
                self.pool_size as int,
                0xFFFF,
                self.descriptor_size as int,
                0xFFFF,
            );
            lemma_binding_marks_fresh_set(
                self.texture_count as nat,
                self.descriptor_size as nat,
            );
        }
        let needs_new_set = self.texture_count == self.descriptor_set_count * self.descriptor_size;
        if needs_new_set {
            if self.descriptor_set_count == self.pool_size {
                return Err(TextureError::DescriptorPoolExhausted);
            }
            self.descriptor_set_count = self.descriptor_set_count + 1;
        }
        let binding = TextureBinding {
            set_index: self.texture_count / self.descriptor_size,
            array_offset: self.texture_count % self.descriptor_size,
        };
        self.texture_count = self.texture_count + 1;
        proof {
            lemma_sets_needed_step(
                (self.texture_count - 1) as nat,
                self.descriptor_size as nat,
            );
        }
        Ok(binding)
    }

    /// Take the most recently registered texture back out of the
    /// accounting: the driver could not upload it.  The list and the sets
    /// return to exactly what they were before that registration; a set
    /// allocated only for the failed texture is freed back to the pool,
    /// and prior textures keep their bindings.
    pub fn unregister_texture(&mut self)
        requires
            old(self).wf(),
            old(self).texture_count >= 1,
        ensures
            final(self).wf(),
            final(self).texture_count == old(self).texture_count - 1,
            final(self).descriptor_size == old(self).descriptor_size,
            final(self).pool_size == old(self).pool_size,
    {
        proof {
            lemma_sets_needed_bounds(self.texture_count as nat, self.descriptor_size as nat);
            vstd::arithmetic::mul::lemma_mul_inequality(
                self.descriptor_set_count as int,
                self.pool_size as int,
                self.descriptor_size as int,
            );
            vstd::arithmetic::mul::lemma_mul_upper_bound(
                self.pool_size as int,
                0xFFFF,
                self.descriptor_size as int,
                0xFFFF,
            );
        }
        self.texture_count = self.texture_count - 1;
        self.descriptor_set_count = (self.texture_count + self.descriptor_size - 1)
            / self.descriptor_size;
        proof {
            vstd::arithmetic::div_mod::lemma_div_is_ordered(
                self.texture_count as int + self.descriptor_size - 1,
                self.texture_count as int + self.descriptor_size,
                self.descriptor_size as int,
            );
        }
    }
}

/// Law: a texture's binding marks the descriptor-set and sampler policy —
/// its array offset is zero exactly when every earlier set was full, so a
/// fresh set was allocated for it and its sampler binding written once;
/// and it is set 0, offset 0 exactly for the very first texture, the one
/// load that creates the sampler itself.
pub proof fn lemma_binding_marks_fresh_set(k: nat, d: nat)
    requires
        1 <= d <= 0xFFFF,
        k <= 0xFFFF * 0xFFFF,
    ensures
        spec_binding(k, d).array_offset == 0 <==> k == spec_sets_needed(k, d) * d,
        (spec_binding(k, d).set_index == 0 && spec_binding(k, d).array_offset == 0) <==> k == 0,
{
    let q = k as int / d as int;
    let m = k as int % d as int;
    vstd::arithmetic::div_mod::lemma_fundamental_div_mod(k as int, d as int);
    vstd::arithmetic::div_mod::lemma_mod_division_less_than_divisor(k as int, d as int);
    vstd::arithmetic::div_mod::lemma_div_pos_is_pos(k as int, d as int);
    lemma_sets_needed_bounds(k, d);
    vstd::arithmetic::mul::lemma_mul_is_commutative(d as int, q);
    vstd::arithmetic::mul::lemma_mul_is_commutative(d as int, q + 1);
    vstd::arithmetic::mul::lemma_mul_is_distributive_add_other_way(d as int, q, 1);
    if m == 0 {
        // k is a multiple of d, so exactly k / d sets are needed.
        vstd::arithmetic::div_mod::lemma_fundamental_div_mod_converse(
            k as int + d - 1,
            d as int,
            q,
            d as int - 1,
        );
    } else {
        // k leaves a started set, so one set more than k / d is needed,
        // and its slots are not all used: k != sets * d.
        vstd::arithmetic::div_mod::lemma_fundamental_div_mod_converse(
            k as int + d - 1,
            d as int,
            q + 1,
            m - 1,
        );
    }
}

/// Law: a pool holding `k` textures with `d` image slots per set has
/// allocated exactly `ceil(k / d)` descriptor sets, and every texture
/// `i < k` is bound at set `i / d`, array offset `i mod d`, within the
/// allocated sets.
pub proof fn lemma_texture_placement(pool: TexturePool, i: nat)
    requires
        pool.wf(),
        i < pool.texture_count,
    ensures
        pool.descriptor_set_count == (pool.texture_count + pool.descriptor_size - 1) as int
            / pool.descriptor_size as int,
        spec_binding(i, pool.descriptor_size as nat).set_index == i as int
            / pool.descriptor_size as int,
        spec_binding(i, pool.descriptor_size as nat).array_offset == i as int
            % pool.descriptor_size as int,
        spec_binding(i, pool.descriptor_size as nat).set_index < pool.descriptor_set_count,
{
    let d = pool.descriptor_size as int;
    let k = pool.texture_count as int;
    let q = i as int / d;
    vstd::arithmetic::div_mod::lemma_fundamental_div_mod(i as int, d);
    vstd::arithmetic::div_mod::lemma_mod_division_less_than_divisor(i as int, d);
    vstd::arithmetic::div_mod::lemma_div_pos_is_pos(i as int, d);
    lemma_sets_needed_bounds(pool.texture_count as nat, pool.descriptor_size as nat);
    let s = pool.descriptor_set_count as int;
    assert(q * d <= i) by {
        vstd::arithmetic::mul::lemma_mul_is_commutative(d, q);
    }
    assert(q * d < s * d);
    vstd::arithmetic::mul::lemma_mul_strict_inequality_converse(q, s, d);
}

/// A decoded texture ready for the driver: the bitmap to upload and where
/// to bind it.
#[derive(Debug, Clone, PartialEq, Eq)]
pub struct TextureUpload {
    pub binding: TextureBinding,
    pub bitmap: RgbaBitmap,
}

/// What the image codec decodes the given bytes to, as width, height and
/// RGBA pixel data — or nothing, when the bytes are not a decodable image.
/// Decoding depends on the bytes alone.
pub uninterp spec fn rgba_decode(bytes: Seq<u8>) -> Option<(u32, u32, Seq<u8>)>;

/// Relies on `image::load_from_memory`, which decodes a supported image
/// format guessed from the bytes — deterministically, from the bytes
/// alone — and `DynamicImage::to_rgba8` / `ImageBuffer::into_raw`, whose
/// raw RGBA container holds exactly four bytes per pixel of the decoded
/// dimensions.
#[verifier::external_body]
pub(crate) fn decode_rgba(bytes: &Vec<u8>) -> (r: Option<RgbaBitmap>)
    ensures
        r is Some <==> rgba_decode(bytes@) is Some,
        r matches Some(b) ==> Some((b.width, b.height, b.pixels@)) == rgba_decode(bytes@),
        r matches Some(b) ==> b.pixels@.len() == b.width * b.height * 4,
{
    match image::load_from_memory(bytes.as_slice()) {
        Ok(img) => {
            let rgba = img.to_rgba8();
            let width = rgba.width();
            let height = rgba.height();
            Some(RgbaBitmap { width, height, pixels: rgba.into_raw() })
        },
        Err(_) => None,
    }
}

/// With `d >= 1`, the sets needed for `k` textures are the least number
/// whose combined image slots cover `k`.
pub proof fn lemma_sets_needed_bounds(k: nat, d: nat)
    requires
        d >= 1,
    ensures
        spec_sets_needed(k, d) * d >= k,
        spec_sets_needed(k, d) * d <= k + d - 1,
{
    let x = k as int + d - 1;
    let s = x / (d as int);
    vstd::arithmetic::div_mod::lemma_fundamental_div_mod(x, d as int);
    vstd::arithmetic::div_mod::lemma_mod_division_less_than_divisor(x, d as int);
    vstd::arithmetic::div_mod::lemma_div_pos_is_pos(x, d as int);
    assert(spec_sets_needed(k, d) == s);
    assert(d * s == x - (x % (d as int)));
    vstd::arithmetic::mul::lemma_mul_is_commutative(d as int, s);
}

/// Loading one more texture allocates a new set exactly when every
/// existing set was full.
pub proof fn lemma_sets_needed_step(k: nat, d: nat)
    requires
        d >= 1,
    ensures
        k == spec_sets_needed(k, d) * d ==> spec_sets_needed(k + 1, d) == spec_sets_needed(k, d)
            + 1,
        k != spec_sets_needed(k, d) * d ==> spec_sets_needed(k + 1, d) == spec_sets_needed(k, d),
{
    let s = spec_sets_needed(k, d) as int;
    lemma_sets_needed_bounds(k, d);
    if k == s * d {
        // k + 1 + d - 1 == (s + 1) * d + 0, so the quotient is s + 1
        vstd::arithmetic::mul::lemma_mul_is_distributive_add_other_way(d as int, s, 1);
        vstd::arithmetic::div_mod::lemma_fundamental_div_mod_converse(
            k as int + d,
            d as int,
            s + 1,
            0,
        );
        vstd::arithmetic::div_mod::lemma_div_pos_is_pos(k as int + d, d as int);
    } else {
        // s*d - d + 1 <= k < s*d, so k + 1 + d - 1 == s * d + r with 1 <= r < d
        let r = k as int + d - s * d;
        vstd::arithmetic::div_mod::lemma_fundamental_div_mod_converse(
            k as int + d,
            d as int,
            s,
            r,
        );
    }
}

} // verus!
