//! How a program of a loaded object is attached.
use vstd::prelude::*;

verus! {

/// The status of an attach that failed for want of a kernel error code.
pub const ATTACH_FAILED: i32 = -1;

/// The section name of programs that attach to a cgroup.
pub open spec fn sockops_section() -> Seq<char> {
    seq!['s', 'o', 'c', 'k', 'o', 'p', 's']
}

/// The section name of programs that attach to a network interface.
pub open spec fn xdp_section() -> Seq<char> {
    seq!['x', 'd', 'p']
}

/// Where a program goes.
#[derive(Debug, PartialEq, Eq)]
pub enum AttachRoute {
    /// The program's own attach point, as its section declares it.
    Auto,
    /// The cgroup at this path: the opened file is kept with the object.
    Cgroup(String),
    /// The network interface of this name.
    Interface(String),
}

/// The model of a route, over the characters of its target.
pub enum RouteModel {
    Auto,
    Cgroup(Seq<char>),
    Interface(Seq<char>),
}

/// The route for a program of section `section` with an optional target:
/// without a target, and for a section with no special handling, the
/// program attaches by itself.
pub open spec fn route_of(section: Seq<char>, target: Option<Seq<char>>) -> RouteModel {
    match target {
        None => RouteModel::Auto,
        Some(t) => if section == sockops_section() {
            RouteModel::Cgroup(t)
        } else if section == xdp_section() {
            RouteModel::Interface(t)
        } else {
            RouteModel::Auto
        },
    }
}

impl View for AttachRoute {
    type V = RouteModel;

    open spec fn view(&self) -> RouteModel {
        match self {
            AttachRoute::Auto => RouteModel::Auto,
            AttachRoute::Cgroup(p) => RouteModel::Cgroup(p@),
            AttachRoute::Interface(n) => RouteModel::Interface(n@),
        }
    }
}

/// Whether `a` holds exactly the characters of `b`.
fn same_text(a: &String, b: &str) -> (r: bool)
    ensures
        r == (a@ == b@),
{
    let b = b.to_owned();
    *a == b
}

/// Chooses how to attach a program of section `section` to `target`.
pub fn attach_route(section: &String, target: Option<String>) -> (r: AttachRoute)
    ensures
        r@ == route_of(section@, match target {
            Some(t) => Some(t@),
            None => None,
        }),
{
    proof {
        reveal_strlit("sockops");
        reveal_strlit("xdp");
    }
    match target {
        None => AttachRoute::Auto,
        Some(t) => {
            if same_text(section, "sockops") {
                assert("sockops"@ =~= sockops_section());
                AttachRoute::Cgroup(t)
            } else if same_text(section, "xdp") {
                assert("xdp"@ =~= xdp_section());
                AttachRoute::Interface(t)
            } else {
                assert("sockops"@ =~= sockops_section());
                assert("xdp"@ =~= xdp_section());
                AttachRoute::Auto
            }
        },
    }
}

/// The status of resolving a network interface by name: its index, or,
/// where it was not found (index zero), the negated error number, or
/// `ATTACH_FAILED` where no error number was recorded.
pub fn interface_index(index: u32, errno: i32) -> (r: Result<i32, i32>)
    ensures
        index != 0 ==> r == Ok::<i32, i32>(index as i32),
        index == 0 && errno > 0 ==> r == Err::<i32, i32>((-errno) as i32),
        index == 0 && errno <= 0 ==> r == Err::<i32, i32>(ATTACH_FAILED),
{
    if index != 0 {
        Ok(index as i32)
    } else if errno > 0 {
        Err(-errno)
    } else {
        Err(ATTACH_FAILED)
    }
}

} // verus!
