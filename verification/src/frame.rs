//! Plane views.
//!
//! A plane view pairs one image plane's sample storage with its geometry:
//! pixel width, pixel height, and the stride between the starts of two
//! consecutive rows. Views are checked at construction — the geometry must
//! cover the storage exactly — and all sample access is bounds-verified
//! against that geometry. The stride is counted in samples, not in bytes:
//! the verified core models storage as typed elements and leaves raw byte
//! layout to the host runtime.

use vstd::prelude::*;

verus! {

/// A read-only view of one image plane.
#[derive(Clone, Copy, Debug)]
pub struct PlaneView<'a, T> {
    /// Plane data, rows laid out `stride` samples apart.
    pub data: &'a [T],
    /// Height in pixels.
    pub height: usize,
    /// Width in pixels.
    pub width: usize,
    /// Distance in samples between two consecutive rows.
    pub stride: usize,
}

/// A plane geometry covers a storage of `len` samples: every row fits in
/// its stride and the rows fill the storage exactly.
pub open spec fn plane_geometry(len: nat, height: nat, width: nat, stride: nat) -> bool {
    &&& width <= stride
    &&& len == stride * height
}

impl<'a, T> PlaneView<'a, T> {
    /// The view's geometry covers its data.
    pub open spec fn wf(self) -> bool {
        plane_geometry(self.data@.len(), self.height as nat, self.width as nat, self.stride as nat)
    }

    /// Build a view over `data`; rejected unless the geometry covers the
    /// data exactly.
    pub fn new(data: &'a [T], height: usize, width: usize, stride: usize) -> (result: Option<
        PlaneView<'a, T>,
    >)
        ensures
            match result {
                Some(view) => {
                    &&& view.wf()
                    &&& view.data == data
                    &&& view.height == height
                    &&& view.width == width
                    &&& view.stride == stride
                },
                None => !plane_geometry(data@.len(), height as nat, width as nat, stride as nat),
            },
    {
        let len = data.len();
        match stride.checked_mul(height) {
            Some(covered) => {
                if width <= stride && len == covered {
                    Some(PlaneView { data, height, width, stride })
                } else {
                    None
                }
            },
            None => {
                // the rows alone outgrow the address space, so no storage of
                // slice length can be covered by this geometry
                None
            },
        }
    }

    /// The sample at pixel `(row, col)`.
    pub fn sample(&self, row: usize, col: usize) -> (sample: &T)
        requires
            self.wf(),
            row < self.height,
            col < self.width,
        ensures
            *sample == self.data@[row as int * self.stride as int + col as int],
    {
        let storage_len = self.data.len();
        proof {
            assert(storage_len == self.data@.len());
            lemma_sample_in_bounds(
                self.data@.len(),
                self.height as nat,
                self.width as nat,
                self.stride as nat,
                row as nat,
                col as nat,
            );
        }
        vstd::slice::slice_index_get(self.data, row * self.stride + col)
    }
}

/// Row-major indexing stays inside a covered storage.
proof fn lemma_sample_in_bounds(len: nat, height: nat, width: nat, stride: nat, row: nat, col: nat)
    requires
        plane_geometry(len, height, width, stride),
        row < height,
        col < width,
    ensures
        row * stride + col < len,
{
    assert(row * stride + col < stride * height) by (nonlinear_arith)
        requires
            row < height,
            col < width <= stride,
    ;
}

/// An exclusive-write view of one image plane: the view owns the plane's
/// storage while it exists, which is what makes the write exclusive. The
/// holder moves the storage in at construction and takes it back from the
/// public field when done.
#[derive(Debug)]
pub struct PlaneViewMut<T> {
    /// Plane data, rows laid out `stride` samples apart.
    pub data: Vec<T>,
    /// Height in pixels.
    pub height: usize,
    /// Width in pixels.
    pub width: usize,
    /// Distance in samples between two consecutive rows.
    pub stride: usize,
}

impl<T> PlaneViewMut<T> {
    /// The view's geometry covers its data.
    pub open spec fn wf(self) -> bool {
        plane_geometry(self.data@.len(), self.height as nat, self.width as nat, self.stride as nat)
    }

    /// Take ownership of `data` as a writable plane; rejected (handing the
    /// storage back) unless the geometry covers the data exactly.
    pub fn new(data: Vec<T>, height: usize, width: usize, stride: usize) -> (result: Result<
        PlaneViewMut<T>,
        Vec<T>,
    >)
        ensures
            match result {
                Ok(view) => {
                    &&& view.wf()
                    &&& view.data@ == data@
                    &&& view.height == height
                    &&& view.width == width
                    &&& view.stride == stride
                },
                Err(returned) => {
                    &&& returned@ == data@
                    &&& !plane_geometry(data@.len(), height as nat, width as nat, stride as nat)
                },
            },
    {
        match PlaneView::new(data.as_slice(), height, width, stride) {
            Some(_) => Ok(PlaneViewMut { data, height, width, stride }),
            None => Err(data),
        }
    }

    /// The sample at pixel `(row, col)`.
    pub fn sample(&self, row: usize, col: usize) -> (sample: &T)
        requires
            self.wf(),
            row < self.height,
            col < self.width,
        ensures
            *sample == self.data@[row as int * self.stride as int + col as int],
    {
        let storage_len = self.data.len();
        proof {
            assert(storage_len == self.data@.len());
            lemma_sample_in_bounds(
                self.data@.len(),
                self.height as nat,
                self.width as nat,
                self.stride as nat,
                row as nat,
                col as nat,
            );
        }
        vstd::slice::slice_index_get(self.data.as_slice(), row * self.stride + col)
    }

    /// Overwrite the sample at pixel `(row, col)`; every other sample and
    /// the geometry stay as they were.
    pub fn set_sample(&mut self, row: usize, col: usize, value: T)
        requires
            old(self).wf(),
            row < old(self).height,
            col < old(self).width,
        ensures
            final(self).wf(),
            final(self).data@ == old(self).data@.update(
                row as int * old(self).stride as int + col as int,
                value,
            ),
            final(self).height == old(self).height,
            final(self).width == old(self).width,
            final(self).stride == old(self).stride,
    {
        let storage_len = self.data.len();
        proof {
            assert(storage_len == self.data@.len());
            lemma_sample_in_bounds(
                self.data@.len(),
                self.height as nat,
                self.width as nat,
                self.stride as nat,
                row as nat,
                col as nat,
            );
        }
        let index = row * self.stride + col;
        self.data[index] = value;
    }
}

} // verus!
