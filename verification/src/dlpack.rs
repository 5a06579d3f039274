//! The plain parts of the tensor interchange descriptor: where a tensor
//! lives and what its elements are. A descriptor may ride in a payload; the
//! client never looks inside one.

use vstd::prelude::*;

verus! {

/// The kind of device that holds a tensor.
#[allow(non_camel_case_types)]
#[derive(Clone, Copy, Debug, PartialEq, Eq, Structural)]
pub enum DLDeviceType {
    kDLCPU,
    kDLCUDA,
    kDLCUDAHost,
    kDLOpenCL,
    kDLVulkan,
    kDLMetal,
    kDLVPI,
    kDLROCM,
    kDLROCMHost,
    kDLExtDev,
    kDLCUDAManaged,
}

/// The family that a tensor's element type belongs to.
#[allow(non_camel_case_types)]
#[derive(Clone, Copy, Debug, PartialEq, Eq, Structural)]
pub enum DLDataTypeCode {
    kDLInt,
    kDLUInt,
    kDLFloat,
    kDLOpaqueHandle,
    kDLBfloat,
    kDLComplex,
}

/// The element type of a tensor: the code of its family, the bits of one
/// lane and the number of lanes.
#[derive(Clone, Copy, Debug)]
pub struct DLDataType {
    pub code: u8,
    pub bits: u8,
    pub lanes: u16,
}

/// The device that holds a tensor.
#[derive(Clone, Copy, Debug)]
pub struct DLDevice {
    pub device_type: DLDeviceType,
    pub device_id: i32,
}

impl DLDeviceType {
    /// The number that stands for this kind of device in a descriptor.
    pub open spec fn code_spec(self) -> int {
        match self {
            DLDeviceType::kDLCPU => 1,
            DLDeviceType::kDLCUDA => 2,
            DLDeviceType::kDLCUDAHost => 3,
            DLDeviceType::kDLOpenCL => 4,
            DLDeviceType::kDLVulkan => 7,
            DLDeviceType::kDLMetal => 8,
            DLDeviceType::kDLVPI => 9,
            DLDeviceType::kDLROCM => 10,
            DLDeviceType::kDLROCMHost => 11,
            DLDeviceType::kDLExtDev => 12,
            DLDeviceType::kDLCUDAManaged => 13,
        }
    }

    /// The number that stands for this kind of device in a descriptor.
    pub fn code(&self) -> (res: i32)
        ensures
            res == self.code_spec(),
    {
        match self {
            DLDeviceType::kDLCPU => 1,
            DLDeviceType::kDLCUDA => 2,
            DLDeviceType::kDLCUDAHost => 3,
            DLDeviceType::kDLOpenCL => 4,
            DLDeviceType::kDLVulkan => 7,
            DLDeviceType::kDLMetal => 8,
            DLDeviceType::kDLVPI => 9,
            DLDeviceType::kDLROCM => 10,
            DLDeviceType::kDLROCMHost => 11,
            DLDeviceType::kDLExtDev => 12,
            DLDeviceType::kDLCUDAManaged => 13,
        }
    }
}

impl DLDataTypeCode {
    /// The number that stands for this family in a descriptor.
    pub open spec fn code_spec(self) -> int {
        match self {
            DLDataTypeCode::kDLInt => 0,
            DLDataTypeCode::kDLUInt => 1,
            DLDataTypeCode::kDLFloat => 2,
            DLDataTypeCode::kDLOpaqueHandle => 3,
            DLDataTypeCode::kDLBfloat => 4,
            DLDataTypeCode::kDLComplex => 5,
        }
    }

    /// The number that stands for this family in a descriptor.
    pub fn code(&self) -> (res: u8)
        ensures
            res == self.code_spec(),
    {
        match self {
            DLDataTypeCode::kDLInt => 0,
            DLDataTypeCode::kDLUInt => 1,
            DLDataTypeCode::kDLFloat => 2,
            DLDataTypeCode::kDLOpaqueHandle => 3,
            DLDataTypeCode::kDLBfloat => 4,
            DLDataTypeCode::kDLComplex => 5,
        }
    }
}

/// No two kinds of device share a number.
pub proof fn lemma_device_codes_differ(a: DLDeviceType, b: DLDeviceType)
    requires
        a.code_spec() == b.code_spec(),
    ensures
        a == b,
{
}

/// No two families of element types share a number.
pub proof fn lemma_data_type_codes_differ(a: DLDataTypeCode, b: DLDataTypeCode)
    requires
        a.code_spec() == b.code_spec(),
    ensures
        a == b,
{
}

} // verus!
