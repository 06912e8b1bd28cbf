use vstd::prelude::*;

use crate::error::VulkanError;
use vstd::string::StringSliceAdditionalSpecFns;

verus! {

/// The first name of `required` that `available` lacks.
pub open spec fn first_missing(required: Seq<Seq<char>>, available: Seq<Seq<char>>) -> Option<int> {
    if exists|i: int| 0 <= i < required.len() && !available.contains(#[trigger] required[i]) {
        Some(choose|i: int| 0 <= i < required.len() && !available.contains(#[trigger] required[i])
            && forall|j: int| 0 <= j < i ==> available.contains(required[j]))
    } else {
        None
    }
}

pub open spec fn views(v: Seq<String>) -> Seq<Seq<char>> {
    v.map_values(|s: String| s@)
}

/// Finds the first name of `required` that is not among `available`.
pub fn find_missing(required: &Vec<String>, available: &Vec<String>) -> (r: Option<usize>)
    ensures
        r matches Some(i) ==> i < required@.len() && first_missing(views(required@), views(available@)) == Some(i as int),
        r is None ==> first_missing(views(required@), views(available@)) is None,
{
    let ghost req = views(required@);
    let ghost av = views(available@);
    let mut i: usize = 0;
    while i < required.len()
        invariant
            i <= required@.len(),
            req == views(required@),
            av == views(available@),
            forall|j: int| 0 <= j < i ==> av.contains(#[trigger] req[j]),
        decreases required@.len() - i,
    {
        let mut found = false;
        let mut k: usize = 0;
        while k < available.len()
            invariant
                k <= available@.len(),
                i < required@.len(),
                req == views(required@),
                av == views(available@),
                found <==> exists|m: int| 0 <= m < k && av[m] == req[i as int],
            decreases available@.len() - k,
        {
            proof {
                assert(av[k as int] == available@[k as int]@);
                assert(req[i as int] == required@[i as int]@);
            }
            if available[k] == required[i] {
                found = true;
            }
            k += 1;
        }
        if !found {
            proof {
                assert(!av.contains(req[i as int]));
                let c = choose|c: int| 0 <= c < req.len() && !av.contains(#[trigger] req[c])
                    && forall|j: int| 0 <= j < c ==> av.contains(req[j]);
                if c < i {
                    assert(av.contains(req[c]));
                } else if c > i {
                    assert(av.contains(req[i as int]));
                }
            }
            return Some(i);
        }
        proof {
            let m = choose|m: int| 0 <= m < available@.len() && av[m] == req[i as int];
            assert(av.contains(req[i as int]));
        }
        i += 1;
    }
    None
}

/// Checks that the Vulkan loader offers every required instance extension;
/// the error names the first one missing.
pub fn check_instance_extensions(required: &Vec<String>, available: &Vec<String>) -> (r: Result<(), VulkanError>)
    ensures
        r is Ok <==> first_missing(views(required@), views(available@)) is None,
        r is Err ==> r == Err::<(), VulkanError>(VulkanError::MissingInstanceExtension(
            required@[first_missing(views(required@), views(available@))->Some_0])),
{
    match find_missing(required, available) {
        Some(i) => Err(VulkanError::MissingInstanceExtension(required[i].clone())),
        None => Ok(()),
    }
}

/// Checks that the device offers every required device extension; the
/// error names the first one missing.
pub fn check_device_extensions(required: &Vec<String>, available: &Vec<String>) -> (r: Result<(), VulkanError>)
    ensures
        r is Ok <==> first_missing(views(required@), views(available@)) is None,
        r is Err ==> r == Err::<(), VulkanError>(VulkanError::MissingDeviceExtension(
            required@[first_missing(views(required@), views(available@))->Some_0])),
{
    match find_missing(required, available) {
        Some(i) => Err(VulkanError::MissingDeviceExtension(required[i].clone())),
        None => Ok(()),
    }
}

/// The first queue family that supports graphics, given for each family
/// whether it does.
pub fn find_graphics_queue(graphics: &Vec<bool>) -> (r: Result<u32, VulkanError>)
    requires
        graphics@.len() <= u32::MAX,
    ensures
        r matches Ok(i) ==> i < graphics@.len() && graphics@[i as int]
            && forall|j: int| 0 <= j < i ==> !graphics@[j],
        r is Err <==> forall|j: int| 0 <= j < graphics@.len() ==> !graphics@[j],
        r matches Err(e) ==> e == VulkanError::NoGraphicsQueue,
{
    let mut i: usize = 0;
    while i < graphics.len()
        invariant
            i <= graphics@.len(),
            graphics@.len() <= u32::MAX,
            forall|j: int| 0 <= j < i ==> !graphics@[j],
        decreases graphics@.len() - i,
    {
        if graphics[i] {
            return Ok(i as u32);
        }
        i += 1;
    }
    Err(VulkanError::NoGraphicsQueue)
}

/// The first physical device whose render node is `dev`, given for each
/// device the `dev_t` of its render node, if it has one.
pub fn find_physical_device(render_nodes: &Vec<Option<u64>>, dev: u64) -> (r: Result<usize, VulkanError>)
    ensures
        r matches Ok(i) ==> i < render_nodes@.len() && render_nodes@[i as int] == Some(dev)
            && forall|j: int| 0 <= j < i ==> render_nodes@[j] != Some(dev),
        r is Err <==> forall|j: int| 0 <= j < render_nodes@.len() ==> render_nodes@[j] != Some(dev),
        r matches Err(e) ==> e == VulkanError::NoDeviceFound(dev),
{
    let mut i: usize = 0;
    while i < render_nodes.len()
        invariant
            i <= render_nodes@.len(),
            forall|j: int| 0 <= j < i ==> render_nodes@[j] != Some(dev),
        decreases render_nodes@.len() - i,
    {
        if let Some(d) = render_nodes[i] {
            if d == dev {
                return Ok(i);
            }
        }
        i += 1;
    }
    Err(VulkanError::NoDeviceFound(dev))
}

/// Whether the value of the validation switch in the environment turns the
/// validation layers on: only the value `1` does.
pub fn validation_requested(value: Option<&str>) -> (r: bool)
    ensures
        r == (value matches Some(v) && v.spec_bytes() == seq![0x31u8]),
{
    match value {
        Some(v) => {
            let b = v.as_bytes();
            let is_one = b.len() == 1 && b[0] == 0x31u8;
            proof {
                if b@.len() == 1 && b@[0] == 0x31u8 {
                    assert(b@ =~= seq![0x31u8]);
                }
            }
            is_one
        },
        None => false,
    }
}

} // verus!
