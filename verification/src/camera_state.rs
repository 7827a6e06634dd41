use vstd::prelude::*;

verus! {

/// The camera of one tab: whether it shows the 2d wireframe or the solid 3d
/// view, and the 3d camera's offset, rotation and scale. `V` is a 2d vector
/// and `S` a scale.
#[derive(Clone, Copy, Debug)]
pub struct CameraState<V, S> {
    is_2d: bool,
    camera_3d_offset: V,
    camera_3d_rotation: V,
    camera_3d_scale: S,
}

pub struct CameraStateView<V, S> {
    pub is_2d: bool,
    pub offset: V,
    pub rotation: V,
    pub scale: S,
}

impl<V, S> View for CameraState<V, S> {
    type V = CameraStateView<V, S>;

    closed spec fn view(&self) -> CameraStateView<V, S> {
        CameraStateView {
            is_2d: self.is_2d,
            offset: self.camera_3d_offset,
            rotation: self.camera_3d_rotation,
            scale: self.camera_3d_scale,
        }
    }
}

impl<V: Copy, S: Copy> CameraState<V, S> {
    /// A camera in the 2d view, with the given 3d offset, rotation and scale.
    pub fn new(offset: V, rotation: V, scale: S) -> (c: Self)
        ensures
            c@ == (CameraStateView { is_2d: true, offset, rotation, scale }),
    {
        CameraState { is_2d: true, camera_3d_offset: offset, camera_3d_rotation: rotation, camera_3d_scale: scale }
    }

    pub fn is_2d(&self) -> (r: bool)
        ensures
            r == self@.is_2d,
    {
        self.is_2d
    }

    pub fn camera_3d_offset(&self) -> (r: V)
        ensures
            r == self@.offset,
    {
        self.camera_3d_offset
    }

    pub fn set_camera_3d_offset(&mut self, offset: V)
        ensures
            final(self)@ == (CameraStateView { offset, ..old(self)@ }),
    {
        self.camera_3d_offset = offset;
    }

    pub fn camera_3d_rotation(&self) -> (r: V)
        ensures
            r == self@.rotation,
    {
        self.camera_3d_rotation
    }

    pub fn set_camera_3d_rotation(&mut self, rotation: V)
        ensures
            final(self)@ == (CameraStateView { rotation, ..old(self)@ }),
    {
        self.camera_3d_rotation = rotation;
    }

    pub fn camera_3d_scale(&self) -> (r: S)
        ensures
            r == self@.scale,
    {
        self.camera_3d_scale
    }

    pub fn set_camera_3d_scale(&mut self, scale: S)
        ensures
            final(self)@ == (CameraStateView { scale, ..old(self)@ }),
    {
        self.camera_3d_scale = scale;
    }

    /// Switches to the 2d wireframe view; returns whether it changed.
    pub fn set_2d_mode(&mut self) -> (changed: bool)
        ensures
            changed == !old(self)@.is_2d,
            final(self)@ == (CameraStateView { is_2d: true, ..old(self)@ }),
    {
        if self.is_2d {
            return false;
        }
        self.is_2d = true;
        true
    }

    /// Switches to the solid 3d view; returns whether it changed.
    pub fn set_3d_mode(&mut self) -> (changed: bool)
        ensures
            changed == old(self)@.is_2d,
            final(self)@ == (CameraStateView { is_2d: false, ..old(self)@ }),
    {
        if !self.is_2d {
            return false;
        }
        self.is_2d = false;
        true
    }
}

} // verus!
