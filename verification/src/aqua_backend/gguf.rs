//! GGUF tensors on their way to an AQuA device.

use crate::dtype::GgmlDType;
use crate::gguf_file::GgufTypeProfile;
use crate::shape::Shape;
use vstd::prelude::*;

verus! {

/// GGUF tensor source delivered during model materialization.
#[derive(Debug)]
pub struct AquaGgufTensorRequest<'a> {
    name: &'a str,
    shape: &'a Shape,
    dtype: GgmlDType,
    raw_data: &'a [u8],
    profile: GgufTypeProfile,
}

impl<'a> AquaGgufTensorRequest<'a> {
    /// The tensor's name.
    pub closed spec fn spec_name(self) -> Seq<char> {
        self.name@
    }

    /// The tensor's shape.
    pub closed spec fn spec_shape(self) -> Shape {
        *self.shape
    }

    /// The tensor's element type.
    pub closed spec fn spec_dtype(self) -> GgmlDType {
        self.dtype
    }

    /// The tensor's bytes as they stand in the file.
    pub closed spec fn spec_raw_data(self) -> Seq<u8> {
        self.raw_data@
    }

    /// The profile of the tensor's file.
    pub closed spec fn spec_profile(self) -> GgufTypeProfile {
        self.profile
    }

    /// A request for one tensor.
    pub fn new(
        name: &'a str,
        shape: &'a Shape,
        dtype: GgmlDType,
        raw_data: &'a [u8],
        profile: GgufTypeProfile,
    ) -> (request: Self)
        ensures
            request.spec_name() == name@,
            request.spec_shape() == *shape,
            request.spec_dtype() == dtype,
            request.spec_raw_data() == raw_data@,
            request.spec_profile() == profile,
    {
        AquaGgufTensorRequest { name, shape, dtype, raw_data, profile }
    }

    /// The tensor's name.
    pub fn name(&self) -> (name: &'a str)
        ensures
            name@ == self.spec_name(),
    {
        self.name
    }

    /// The tensor's shape.
    pub fn shape(&self) -> (shape: &'a Shape)
        ensures
            *shape == self.spec_shape(),
    {
        self.shape
    }

    /// The tensor's element type.
    pub fn dtype(&self) -> (dtype: GgmlDType)
        ensures
            dtype == self.spec_dtype(),
    {
        self.dtype
    }

    /// The tensor's bytes as they stand in the file.
    pub fn raw_data(&self) -> (raw_data: &'a [u8])
        ensures
            raw_data@ == self.spec_raw_data(),
    {
        self.raw_data
    }

    /// The profile of the tensor's file.
    pub fn profile(&self) -> (profile: GgufTypeProfile)
        ensures
            profile == self.spec_profile(),
    {
        self.profile
    }
}

/// A request hands out what it was made of.
pub proof fn law_requests_hold_what_they_were_made_of<'a>(
    name: &'a str,
    shape: &'a Shape,
    dtype: GgmlDType,
    raw_data: &'a [u8],
    profile: GgufTypeProfile,
    request: AquaGgufTensorRequest<'a>,
    told_name: &'a str,
    told_shape: &'a Shape,
    told_dtype: GgmlDType,
    told_data: &'a [u8],
    told_profile: GgufTypeProfile,
)
    requires
        call_ensures(
            AquaGgufTensorRequest::<'a>::new,
            (name, shape, dtype, raw_data, profile),
            request,
        ),
        call_ensures(AquaGgufTensorRequest::<'a>::name, (&request,), told_name),
        call_ensures(AquaGgufTensorRequest::<'a>::shape, (&request,), told_shape),
        call_ensures(AquaGgufTensorRequest::<'a>::dtype, (&request,), told_dtype),
        call_ensures(AquaGgufTensorRequest::<'a>::raw_data, (&request,), told_data),
        call_ensures(AquaGgufTensorRequest::<'a>::profile, (&request,), told_profile),
    ensures
        told_name@ == name@,
        *told_shape == *shape,
        told_dtype == dtype,
        told_data@ == raw_data@,
        told_profile == profile,
{
}

} // verus!
