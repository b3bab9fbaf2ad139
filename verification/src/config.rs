//! The camera list as the configuration file gives it.

use vstd::prelude::*;
use crate::address::{resolve, AddressKind, CameraSpec, CameraSpecView};

verus! {

/// One configured camera: its name and its address as text, either a stream
/// URI or the index of a local device.
#[derive(Debug, PartialEq, Eq)]
pub struct CameraDetails {
    pub name: String,
    pub url: String,
}

/// The mathematical value of a [`CameraDetails`].
pub struct DetailsView {
    pub name: Seq<char>,
    pub url: Seq<char>,
}

impl DetailsView {
    /// The camera that this entry configures, its address resolved.
    pub open spec fn resolved(self) -> CameraSpecView {
        CameraSpecView { name: self.name, address: resolve(self.url) }
    }
}

impl View for CameraDetails {
    type V = DetailsView;

    open spec fn view(&self) -> DetailsView {
        DetailsView { name: self.name@, url: self.url@ }
    }
}

impl CameraDetails {
    /// Resolves the address text, once, into a camera to run.
    pub fn resolve(&self) -> (res: CameraSpec)
        ensures
            res@ == self@.resolved(),
    {
        CameraSpec { name: self.name.clone(), address: AddressKind::parse(self.url.as_str()) }
    }
}

impl Clone for CameraDetails {
    /// A copy of this entry.
    fn clone(&self) -> (res: CameraDetails)
        ensures
            res@ == self@,
    {
        CameraDetails { name: self.name.clone(), url: self.url.clone() }
    }
}

/// The views of a list of configured cameras, in order.
pub open spec fn details_view(list: Seq<CameraDetails>) -> Seq<DetailsView> {
    list.map_values(|d: CameraDetails| d@)
}

/// Copies a list of configured cameras, entry by entry.
pub fn duplicate_details(list: &Vec<CameraDetails>) -> (res: Vec<CameraDetails>)
    ensures
        details_view(res@) == details_view(list@),
{
    let mut res: Vec<CameraDetails> = Vec::new();
    let mut i: usize = 0;
    while i < list.len()
        invariant
            i <= list.len(),
            res.len() == i,
            forall|k: int| 0 <= k < i ==> res@[k]@ == list@[k]@,
        decreases list.len() - i,
    {
        res.push(list[i].clone());
        i = i + 1;
    }
    res
}

/// The content of the camera configuration file: the cameras to run, in the
/// order in which they are indexed.
#[derive(Debug)]
pub struct CameraConfig {
    pub cameras: Vec<CameraDetails>,
}

} // verus!
