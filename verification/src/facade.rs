//! The typed façade set: one concrete wrapper per supported scalar type,
//! each projecting the generic tensor's operations under a monomorphic
//! name. The exchange boundary can only declare a fixed, finite list of
//! concrete opaque types, so a tensor of each element type crosses it
//! under its own wrapper; every wrapper carries the same method set with
//! the same contracts, and converts to and from the generic tensor by a
//! plain ownership move.

use vstd::prelude::*;
use vstd::std_specs::convert::{FromSpec, FromSpecImpl};
use crate::layout::shape_product;
use crate::tensor::RsTensor;

verus! {

/// Monomorphic wrapper around an owned tensor of `u8` elements.
pub struct RsTensorU8(pub(crate) RsTensor<u8>);

impl RsTensorU8 {
    /// The wrapped tensor.
    pub closed spec fn inner_spec(self) -> RsTensor<u8> {
        self.0
    }

    pub fn shape(&self) -> (r: &[usize])
        ensures
            r@ == self.inner_spec().shape_spec(),
    {
        self.0.shape()
    }

    pub fn as_slice(&self) -> (r: &[u8])
        ensures
            r@ == self.inner_spec().data_spec(),
    {
        self.0.as_slice()
    }

    pub fn as_slice_mut(&mut self) -> (r: &mut [u8])
        ensures
            r@ == old(self).inner_spec().data_spec(),
            final(self).inner_spec().data_spec() == final(r)@,
            final(self).inner_spec().shape_spec() == old(self).inner_spec().shape_spec(),
    {
        self.0.as_slice_mut()
    }

    pub fn copy_from_ptr(shape: &[usize], src: &[u8]) -> (t: Self)
        requires
            shape_product(shape@) <= src@.len(),
        ensures
            t.inner_spec().shape_spec() == shape@,
            t.inner_spec().data_spec() == src@.take(shape_product(shape@) as int),
            t.inner_spec().wf(),
    {
        RsTensorU8(RsTensor::copy_from_ptr(shape, src))
    }
}

impl From<RsTensor<u8>> for RsTensorU8 {
    fn from(tensor: RsTensor<u8>) -> (r: Self) {
        RsTensorU8(tensor)
    }
}

impl FromSpecImpl<RsTensor<u8>> for RsTensorU8 {
    open spec fn obeys_from_spec() -> bool {
        true
    }

    closed spec fn from_spec(tensor: RsTensor<u8>) -> Self {
        RsTensorU8(tensor)
    }
}

impl From<RsTensorU8> for RsTensor<u8> {
    fn from(wrapped: RsTensorU8) -> (r: Self) {
        wrapped.0
    }
}

impl FromSpecImpl<RsTensorU8> for RsTensor<u8> {
    open spec fn obeys_from_spec() -> bool {
        true
    }

    closed spec fn from_spec(wrapped: RsTensorU8) -> Self {
        wrapped.0
    }
}

/// Wrapping a tensor of `u8` elements leaves it untouched, and
/// unwrapping gives the very tensor back: the façade conversion is
/// lossless in both directions, with shape and buffer bit-identical.
pub proof fn lemma_facade_roundtrip_u8(t: RsTensor<u8>)
    ensures
        <RsTensorU8 as FromSpec<RsTensor<u8>>>::from_spec(t).inner_spec() == t,
        <RsTensor<u8> as FromSpec<RsTensorU8>>::from_spec(
            <RsTensorU8 as FromSpec<RsTensor<u8>>>::from_spec(t),
        ) == t,
{
}

/// Monomorphic wrapper around an owned tensor of `i8` elements.
pub struct RsTensorI8(pub(crate) RsTensor<i8>);

impl RsTensorI8 {
    /// The wrapped tensor.
    pub closed spec fn inner_spec(self) -> RsTensor<i8> {
        self.0
    }

    pub fn shape(&self) -> (r: &[usize])
        ensures
            r@ == self.inner_spec().shape_spec(),
    {
        self.0.shape()
    }

    pub fn as_slice(&self) -> (r: &[i8])
        ensures
            r@ == self.inner_spec().data_spec(),
    {
        self.0.as_slice()
    }

    pub fn as_slice_mut(&mut self) -> (r: &mut [i8])
        ensures
            r@ == old(self).inner_spec().data_spec(),
            final(self).inner_spec().data_spec() == final(r)@,
            final(self).inner_spec().shape_spec() == old(self).inner_spec().shape_spec(),
    {
        self.0.as_slice_mut()
    }

    pub fn copy_from_ptr(shape: &[usize], src: &[i8]) -> (t: Self)
        requires
            shape_product(shape@) <= src@.len(),
        ensures
            t.inner_spec().shape_spec() == shape@,
            t.inner_spec().data_spec() == src@.take(shape_product(shape@) as int),
            t.inner_spec().wf(),
    {
        RsTensorI8(RsTensor::copy_from_ptr(shape, src))
    }
}

impl From<RsTensor<i8>> for RsTensorI8 {
    fn from(tensor: RsTensor<i8>) -> (r: Self) {
        RsTensorI8(tensor)
    }
}

impl FromSpecImpl<RsTensor<i8>> for RsTensorI8 {
    open spec fn obeys_from_spec() -> bool {
        true
    }

    closed spec fn from_spec(tensor: RsTensor<i8>) -> Self {
        RsTensorI8(tensor)
    }
}

impl From<RsTensorI8> for RsTensor<i8> {
    fn from(wrapped: RsTensorI8) -> (r: Self) {
        wrapped.0
    }
}

impl FromSpecImpl<RsTensorI8> for RsTensor<i8> {
    open spec fn obeys_from_spec() -> bool {
        true
    }

    closed spec fn from_spec(wrapped: RsTensorI8) -> Self {
        wrapped.0
    }
}

/// Wrapping a tensor of `i8` elements leaves it untouched, and
/// unwrapping gives the very tensor back: the façade conversion is
/// lossless in both directions, with shape and buffer bit-identical.
pub proof fn lemma_facade_roundtrip_i8(t: RsTensor<i8>)
    ensures
        <RsTensorI8 as FromSpec<RsTensor<i8>>>::from_spec(t).inner_spec() == t,
        <RsTensor<i8> as FromSpec<RsTensorI8>>::from_spec(
            <RsTensorI8 as FromSpec<RsTensor<i8>>>::from_spec(t),
        ) == t,
{
}

/// Monomorphic wrapper around an owned tensor of `u16` elements.
pub struct RsTensorU16(pub(crate) RsTensor<u16>);

impl RsTensorU16 {
    /// The wrapped tensor.
    pub closed spec fn inner_spec(self) -> RsTensor<u16> {
        self.0
    }

    pub fn shape(&self) -> (r: &[usize])
        ensures
            r@ == self.inner_spec().shape_spec(),
    {
        self.0.shape()
    }

    pub fn as_slice(&self) -> (r: &[u16])
        ensures
            r@ == self.inner_spec().data_spec(),
    {
        self.0.as_slice()
    }

    pub fn as_slice_mut(&mut self) -> (r: &mut [u16])
        ensures
            r@ == old(self).inner_spec().data_spec(),
            final(self).inner_spec().data_spec() == final(r)@,
            final(self).inner_spec().shape_spec() == old(self).inner_spec().shape_spec(),
    {
        self.0.as_slice_mut()
    }

    pub fn copy_from_ptr(shape: &[usize], src: &[u16]) -> (t: Self)
        requires
            shape_product(shape@) <= src@.len(),
        ensures
            t.inner_spec().shape_spec() == shape@,
            t.inner_spec().data_spec() == src@.take(shape_product(shape@) as int),
            t.inner_spec().wf(),
    {
        RsTensorU16(RsTensor::copy_from_ptr(shape, src))
    }
}

impl From<RsTensor<u16>> for RsTensorU16 {
    fn from(tensor: RsTensor<u16>) -> (r: Self) {
        RsTensorU16(tensor)
    }
}

impl FromSpecImpl<RsTensor<u16>> for RsTensorU16 {
    open spec fn obeys_from_spec() -> bool {
        true
    }

    closed spec fn from_spec(tensor: RsTensor<u16>) -> Self {
        RsTensorU16(tensor)
    }
}

impl From<RsTensorU16> for RsTensor<u16> {
    fn from(wrapped: RsTensorU16) -> (r: Self) {
        wrapped.0
    }
}

impl FromSpecImpl<RsTensorU16> for RsTensor<u16> {
    open spec fn obeys_from_spec() -> bool {
        true
    }

    closed spec fn from_spec(wrapped: RsTensorU16) -> Self {
        wrapped.0
    }
}

/// Wrapping a tensor of `u16` elements leaves it untouched, and
/// unwrapping gives the very tensor back: the façade conversion is
/// lossless in both directions, with shape and buffer bit-identical.
pub proof fn lemma_facade_roundtrip_u16(t: RsTensor<u16>)
    ensures
        <RsTensorU16 as FromSpec<RsTensor<u16>>>::from_spec(t).inner_spec() == t,
        <RsTensor<u16> as FromSpec<RsTensorU16>>::from_spec(
            <RsTensorU16 as FromSpec<RsTensor<u16>>>::from_spec(t),
        ) == t,
{
}

/// Monomorphic wrapper around an owned tensor of `i16` elements.
pub struct RsTensorI16(pub(crate) RsTensor<i16>);

impl RsTensorI16 {
    /// The wrapped tensor.
    pub closed spec fn inner_spec(self) -> RsTensor<i16> {
        self.0
    }

    pub fn shape(&self) -> (r: &[usize])
        ensures
            r@ == self.inner_spec().shape_spec(),
    {
        self.0.shape()
    }

    pub fn as_slice(&self) -> (r: &[i16])
        ensures
            r@ == self.inner_spec().data_spec(),
    {
        self.0.as_slice()
    }

    pub fn as_slice_mut(&mut self) -> (r: &mut [i16])
        ensures
            r@ == old(self).inner_spec().data_spec(),
            final(self).inner_spec().data_spec() == final(r)@,
            final(self).inner_spec().shape_spec() == old(self).inner_spec().shape_spec(),
    {
        self.0.as_slice_mut()
    }

    pub fn copy_from_ptr(shape: &[usize], src: &[i16]) -> (t: Self)
        requires
            shape_product(shape@) <= src@.len(),
        ensures
            t.inner_spec().shape_spec() == shape@,
            t.inner_spec().data_spec() == src@.take(shape_product(shape@) as int),
            t.inner_spec().wf(),
    {
        RsTensorI16(RsTensor::copy_from_ptr(shape, src))
    }
}

impl From<RsTensor<i16>> for RsTensorI16 {
    fn from(tensor: RsTensor<i16>) -> (r: Self) {
        RsTensorI16(tensor)
    }
}

impl FromSpecImpl<RsTensor<i16>> for RsTensorI16 {
    open spec fn obeys_from_spec() -> bool {
        true
    }

    closed spec fn from_spec(tensor: RsTensor<i16>) -> Self {
        RsTensorI16(tensor)
    }
}

impl From<RsTensorI16> for RsTensor<i16> {
    fn from(wrapped: RsTensorI16) -> (r: Self) {
        wrapped.0
    }
}

impl FromSpecImpl<RsTensorI16> for RsTensor<i16> {
    open spec fn obeys_from_spec() -> bool {
        true
    }

    closed spec fn from_spec(wrapped: RsTensorI16) -> Self {
        wrapped.0
    }
}

/// Wrapping a tensor of `i16` elements leaves it untouched, and
/// unwrapping gives the very tensor back: the façade conversion is
/// lossless in both directions, with shape and buffer bit-identical.
pub proof fn lemma_facade_roundtrip_i16(t: RsTensor<i16>)
    ensures
        <RsTensorI16 as FromSpec<RsTensor<i16>>>::from_spec(t).inner_spec() == t,
        <RsTensor<i16> as FromSpec<RsTensorI16>>::from_spec(
            <RsTensorI16 as FromSpec<RsTensor<i16>>>::from_spec(t),
        ) == t,
{
}

/// Monomorphic wrapper around an owned tensor of `u32` elements.
pub struct RsTensorU32(pub(crate) RsTensor<u32>);

impl RsTensorU32 {
    /// The wrapped tensor.
    pub closed spec fn inner_spec(self) -> RsTensor<u32> {
        self.0
    }

    pub fn shape(&self) -> (r: &[usize])
        ensures
            r@ == self.inner_spec().shape_spec(),
    {
        self.0.shape()
    }

    pub fn as_slice(&self) -> (r: &[u32])
        ensures
            r@ == self.inner_spec().data_spec(),
    {
        self.0.as_slice()
    }

    pub fn as_slice_mut(&mut self) -> (r: &mut [u32])
        ensures
            r@ == old(self).inner_spec().data_spec(),
            final(self).inner_spec().data_spec() == final(r)@,
            final(self).inner_spec().shape_spec() == old(self).inner_spec().shape_spec(),
    {
        self.0.as_slice_mut()
    }

    pub fn copy_from_ptr(shape: &[usize], src: &[u32]) -> (t: Self)
        requires
            shape_product(shape@) <= src@.len(),
        ensures
            t.inner_spec().shape_spec() == shape@,
            t.inner_spec().data_spec() == src@.take(shape_product(shape@) as int),
            t.inner_spec().wf(),
    {
        RsTensorU32(RsTensor::copy_from_ptr(shape, src))
    }
}

impl From<RsTensor<u32>> for RsTensorU32 {
    fn from(tensor: RsTensor<u32>) -> (r: Self) {
        RsTensorU32(tensor)
    }
}

impl FromSpecImpl<RsTensor<u32>> for RsTensorU32 {
    open spec fn obeys_from_spec() -> bool {
        true
    }

    closed spec fn from_spec(tensor: RsTensor<u32>) -> Self {
        RsTensorU32(tensor)
    }
}

impl From<RsTensorU32> for RsTensor<u32> {
    fn from(wrapped: RsTensorU32) -> (r: Self) {
        wrapped.0
    }
}

impl FromSpecImpl<RsTensorU32> for RsTensor<u32> {
    open spec fn obeys_from_spec() -> bool {
        true
    }

    closed spec fn from_spec(wrapped: RsTensorU32) -> Self {
        wrapped.0
    }
}

/// Wrapping a tensor of `u32` elements leaves it untouched, and
/// unwrapping gives the very tensor back: the façade conversion is
/// lossless in both directions, with shape and buffer bit-identical.
pub proof fn lemma_facade_roundtrip_u32(t: RsTensor<u32>)
    ensures
        <RsTensorU32 as FromSpec<RsTensor<u32>>>::from_spec(t).inner_spec() == t,
        <RsTensor<u32> as FromSpec<RsTensorU32>>::from_spec(
            <RsTensorU32 as FromSpec<RsTensor<u32>>>::from_spec(t),
        ) == t,
{
}

/// Monomorphic wrapper around an owned tensor of `i32` elements.
pub struct RsTensorI32(pub(crate) RsTensor<i32>);

impl RsTensorI32 {
    /// The wrapped tensor.
    pub closed spec fn inner_spec(self) -> RsTensor<i32> {
        self.0
    }

    pub fn shape(&self) -> (r: &[usize])
        ensures
            r@ == self.inner_spec().shape_spec(),
    {
        self.0.shape()
    }

    pub fn as_slice(&self) -> (r: &[i32])
        ensures
            r@ == self.inner_spec().data_spec(),
    {
        self.0.as_slice()
    }

    pub fn as_slice_mut(&mut self) -> (r: &mut [i32])
        ensures
            r@ == old(self).inner_spec().data_spec(),
            final(self).inner_spec().data_spec() == final(r)@,
            final(self).inner_spec().shape_spec() == old(self).inner_spec().shape_spec(),
    {
        self.0.as_slice_mut()
    }

    pub fn copy_from_ptr(shape: &[usize], src: &[i32]) -> (t: Self)
        requires
            shape_product(shape@) <= src@.len(),
        ensures
            t.inner_spec().shape_spec() == shape@,
            t.inner_spec().data_spec() == src@.take(shape_product(shape@) as int),
            t.inner_spec().wf(),
    {
        RsTensorI32(RsTensor::copy_from_ptr(shape, src))
    }
}

impl From<RsTensor<i32>> for RsTensorI32 {
    fn from(tensor: RsTensor<i32>) -> (r: Self) {
        RsTensorI32(tensor)
    }
}

impl FromSpecImpl<RsTensor<i32>> for RsTensorI32 {
    open spec fn obeys_from_spec() -> bool {
        true
    }

    closed spec fn from_spec(tensor: RsTensor<i32>) -> Self {
        RsTensorI32(tensor)
    }
}

impl From<RsTensorI32> for RsTensor<i32> {
    fn from(wrapped: RsTensorI32) -> (r: Self) {
        wrapped.0
    }
}

impl FromSpecImpl<RsTensorI32> for RsTensor<i32> {
    open spec fn obeys_from_spec() -> bool {
        true
    }

    closed spec fn from_spec(wrapped: RsTensorI32) -> Self {
        wrapped.0
    }
}

/// Wrapping a tensor of `i32` elements leaves it untouched, and
/// unwrapping gives the very tensor back: the façade conversion is
/// lossless in both directions, with shape and buffer bit-identical.
pub proof fn lemma_facade_roundtrip_i32(t: RsTensor<i32>)
    ensures
        <RsTensorI32 as FromSpec<RsTensor<i32>>>::from_spec(t).inner_spec() == t,
        <RsTensor<i32> as FromSpec<RsTensorI32>>::from_spec(
            <RsTensorI32 as FromSpec<RsTensor<i32>>>::from_spec(t),
        ) == t,
{
}

/// Monomorphic wrapper around an owned tensor of `u64` elements.
pub struct RsTensorU64(pub(crate) RsTensor<u64>);

impl RsTensorU64 {
    /// The wrapped tensor.
    pub closed spec fn inner_spec(self) -> RsTensor<u64> {
        self.0
    }

    pub fn shape(&self) -> (r: &[usize])
        ensures
            r@ == self.inner_spec().shape_spec(),
    {
        self.0.shape()
    }

    pub fn as_slice(&self) -> (r: &[u64])
        ensures
            r@ == self.inner_spec().data_spec(),
    {
        self.0.as_slice()
    }

    pub fn as_slice_mut(&mut self) -> (r: &mut [u64])
        ensures
            r@ == old(self).inner_spec().data_spec(),
            final(self).inner_spec().data_spec() == final(r)@,
            final(self).inner_spec().shape_spec() == old(self).inner_spec().shape_spec(),
    {
        self.0.as_slice_mut()
    }

    pub fn copy_from_ptr(shape: &[usize], src: &[u64]) -> (t: Self)
        requires
            shape_product(shape@) <= src@.len(),
        ensures
            t.inner_spec().shape_spec() == shape@,
            t.inner_spec().data_spec() == src@.take(shape_product(shape@) as int),
            t.inner_spec().wf(),
    {
        RsTensorU64(RsTensor::copy_from_ptr(shape, src))
    }
}

impl From<RsTensor<u64>> for RsTensorU64 {
    fn from(tensor: RsTensor<u64>) -> (r: Self) {
        RsTensorU64(tensor)
    }
}

impl FromSpecImpl<RsTensor<u64>> for RsTensorU64 {
    open spec fn obeys_from_spec() -> bool {
        true
    }

    closed spec fn from_spec(tensor: RsTensor<u64>) -> Self {
        RsTensorU64(tensor)
    }
}

impl From<RsTensorU64> for RsTensor<u64> {
    fn from(wrapped: RsTensorU64) -> (r: Self) {
        wrapped.0
    }
}

impl FromSpecImpl<RsTensorU64> for RsTensor<u64> {
    open spec fn obeys_from_spec() -> bool {
        true
    }

    closed spec fn from_spec(wrapped: RsTensorU64) -> Self {
        wrapped.0
    }
}

/// Wrapping a tensor of `u64` elements leaves it untouched, and
/// unwrapping gives the very tensor back: the façade conversion is
/// lossless in both directions, with shape and buffer bit-identical.
pub proof fn lemma_facade_roundtrip_u64(t: RsTensor<u64>)
    ensures
        <RsTensorU64 as FromSpec<RsTensor<u64>>>::from_spec(t).inner_spec() == t,
        <RsTensor<u64> as FromSpec<RsTensorU64>>::from_spec(
            <RsTensorU64 as FromSpec<RsTensor<u64>>>::from_spec(t),
        ) == t,
{
}

/// Monomorphic wrapper around an owned tensor of `i64` elements.
pub struct RsTensorI64(pub(crate) RsTensor<i64>);

impl RsTensorI64 {
    /// The wrapped tensor.
    pub closed spec fn inner_spec(self) -> RsTensor<i64> {
        self.0
    }

    pub fn shape(&self) -> (r: &[usize])
        ensures
            r@ == self.inner_spec().shape_spec(),
    {
        self.0.shape()
    }

    pub fn as_slice(&self) -> (r: &[i64])
        ensures
            r@ == self.inner_spec().data_spec(),
    {
        self.0.as_slice()
    }

    pub fn as_slice_mut(&mut self) -> (r: &mut [i64])
        ensures
            r@ == old(self).inner_spec().data_spec(),
            final(self).inner_spec().data_spec() == final(r)@,
            final(self).inner_spec().shape_spec() == old(self).inner_spec().shape_spec(),
    {
        self.0.as_slice_mut()
    }

    pub fn copy_from_ptr(shape: &[usize], src: &[i64]) -> (t: Self)
        requires
            shape_product(shape@) <= src@.len(),
        ensures
            t.inner_spec().shape_spec() == shape@,
            t.inner_spec().data_spec() == src@.take(shape_product(shape@) as int),
            t.inner_spec().wf(),
    {
        RsTensorI64(RsTensor::copy_from_ptr(shape, src))
    }
}

impl From<RsTensor<i64>> for RsTensorI64 {
    fn from(tensor: RsTensor<i64>) -> (r: Self) {
        RsTensorI64(tensor)
    }
}

impl FromSpecImpl<RsTensor<i64>> for RsTensorI64 {
    open spec fn obeys_from_spec() -> bool {
        true
    }

    closed spec fn from_spec(tensor: RsTensor<i64>) -> Self {
        RsTensorI64(tensor)
    }
}

impl From<RsTensorI64> for RsTensor<i64> {
    fn from(wrapped: RsTensorI64) -> (r: Self) {
        wrapped.0
    }
}

impl FromSpecImpl<RsTensorI64> for RsTensor<i64> {
    open spec fn obeys_from_spec() -> bool {
        true
    }

    closed spec fn from_spec(wrapped: RsTensorI64) -> Self {
        wrapped.0
    }
}

/// Wrapping a tensor of `i64` elements leaves it untouched, and
/// unwrapping gives the very tensor back: the façade conversion is
/// lossless in both directions, with shape and buffer bit-identical.
pub proof fn lemma_facade_roundtrip_i64(t: RsTensor<i64>)
    ensures
        <RsTensorI64 as FromSpec<RsTensor<i64>>>::from_spec(t).inner_spec() == t,
        <RsTensor<i64> as FromSpec<RsTensorI64>>::from_spec(
            <RsTensorI64 as FromSpec<RsTensor<i64>>>::from_spec(t),
        ) == t,
{
}

} // verus!
