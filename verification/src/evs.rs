//! The exterior-view enumerator of a machine that has no cameras, no
//! displays and no ultrasonics arrays.

use vstd::prelude::*;
use crate::error::HalError;

verus! {

/// The enumerator that offers nothing: it keeps no state, and every
/// operation is refused in the same way, whatever it is asked about.
pub struct DefaultEvsHal {}

#[allow(non_snake_case)]
impl DefaultEvsHal {
    /// Makes the enumerator.
    pub fn new() -> Self {
        DefaultEvsHal {  }
    }

    /// The answer to every operation.
    pub open spec fn refused<T>(r: Result<T, HalError>) -> bool {
        r == Err::<T, HalError>(HalError::Unimplemented)
    }

    /// Refuses to close a camera.
    pub fn closeCamera(&self) -> (r: Result<(), HalError>)
        ensures
            Self::refused(r),
    {
        Err(HalError::Unimplemented)
    }

    /// Refuses to close a display.
    pub fn closeDisplay(&self) -> (r: Result<(), HalError>)
        ensures
            Self::refused(r),
    {
        Err(HalError::Unimplemented)
    }

    /// Refuses to close an ultrasonics array.
    pub fn closeUltrasonicsArray(&self) -> (r: Result<(), HalError>)
        ensures
            Self::refused(r),
    {
        Err(HalError::Unimplemented)
    }

    /// Refuses to list the cameras.
    pub fn getCameraList<T>(&self) -> (r: Result<Vec<T>, HalError>)
        ensures
            Self::refused(r),
    {
        Err(HalError::Unimplemented)
    }

    /// Refuses to list the displays.
    pub fn getDisplayIdList(&self) -> (r: Result<Vec<u8>, HalError>)
        ensures
            Self::refused(r),
    {
        Err(HalError::Unimplemented)
    }

    /// Refuses to tell the state of the display.
    pub fn getDisplayState<T>(&self) -> (r: Result<T, HalError>)
        ensures
            Self::refused(r),
    {
        Err(HalError::Unimplemented)
    }

    /// Refuses to list the streams of a camera.
    pub fn getStreamList<T>(&self) -> (r: Result<Vec<T>, HalError>)
        ensures
            Self::refused(r),
    {
        Err(HalError::Unimplemented)
    }

    /// Refuses to list the ultrasonics arrays.
    pub fn getUltrasonicsArrayList<T>(&self) -> (r: Result<Vec<T>, HalError>)
        ensures
            Self::refused(r),
    {
        Err(HalError::Unimplemented)
    }

    /// Refuses to tell whether the devices are hardware.
    pub fn isHardware(&self) -> (r: Result<bool, HalError>)
        ensures
            Self::refused(r),
    {
        Err(HalError::Unimplemented)
    }

    /// Refuses to open the camera called `id`.
    pub fn openCamera<T>(&self, id: &str) -> (r: Result<T, HalError>)
        ensures
            Self::refused(r),
    {
        let _ = id;
        Err(HalError::Unimplemented)
    }

    /// Refuses to open the display numbered `id`.
    pub fn openDisplay<T>(&self, id: i32) -> (r: Result<T, HalError>)
        ensures
            Self::refused(r),
    {
        let _ = id;
        Err(HalError::Unimplemented)
    }

    /// Refuses to open the ultrasonics array called `id`.
    pub fn openUltrasonicsArray<T>(&self, id: &str) -> (r: Result<T, HalError>)
        ensures
            Self::refused(r),
    {
        let _ = id;
        Err(HalError::Unimplemented)
    }

    /// Refuses to register a status callback.
    pub fn registerStatusCallback(&self) -> (r: Result<(), HalError>)
        ensures
            Self::refused(r),
    {
        Err(HalError::Unimplemented)
    }

    /// Refuses to tell the state of the display numbered `id`.
    pub fn getDisplayStateById<T>(&self, id: i32) -> (r: Result<T, HalError>)
        ensures
            Self::refused(r),
    {
        let _ = id;
        Err(HalError::Unimplemented)
    }
}

} // verus!
