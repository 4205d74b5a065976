//! Extension negotiation for graphics readiness.

use vstd::prelude::*;
use vstd::string::StringExecFns;

verus! {

/// The texts that `names` holds.
pub open spec fn texts(names: Seq<&'static str>) -> Seq<Seq<char>> {
    Seq::new(names.len(), |i: int| names[i]@)
}

/// The list of reported extension names holds `name`.
pub open spec fn reports(available: Seq<String>, name: Seq<char>) -> bool {
    exists|i: int| 0 <= i < available.len() && (#[trigger] available[i])@ == name
}

/// Instance extensions requested when a caller wants graphics, so that it can
/// create whichever surface it needs: the surface base, headless rendering,
/// and the window systems.
pub open spec fn surface_extensions() -> Seq<Seq<char>> {
    seq![
        "VK_KHR_surface"@,
        "VK_EXT_headless_surface"@,
        "VK_KHR_xlib_surface"@,
        "VK_KHR_xcb_surface"@,
        "VK_KHR_wayland_surface"@,
        "VK_KHR_win32_surface"@,
        "VK_KHR_android_surface"@,
        "VK_EXT_metal_surface"@,
    ]
}

/// The device extension with which a consumer builds a swapchain.
pub open spec fn swapchain_extension() -> Seq<char> {
    "VK_KHR_swapchain"@
}

/// The surface extensions that are reported available, in their own order.
/// Nothing is enabled where none were asked for or none could be listed.
pub open spec fn enabled_surface_extensions(available: Option<Vec<String>>) -> Seq<Seq<char>> {
    match available {
        Some(names) => surface_extensions().filter(|name: Seq<char>| reports(names@, name)),
        None => Seq::empty(),
    }
}

/// Whether `name` is among the reported names.
pub fn is_reported(available: &Vec<String>, name: &str) -> (found: bool)
    ensures
        found == reports(available@, name@),
{
    let wanted = String::from_str(name);
    let mut i: usize = 0;
    while i < available.len()
        invariant
            i <= available.len(),
            wanted@ == name@,
            forall|j: int| 0 <= j < i ==> (#[trigger] available@[j])@ != name@,
        decreases available.len() - i,
    {
        if available[i] == wanted {
            return true;
        }
        i += 1;
    }
    false
}

/// Selects the instance extensions to enable: every surface extension that the
/// loader reports. Unsupported ones are skipped, so a compute-only loader never
/// fails here.
pub fn select_surface_extensions(available: &Option<Vec<String>>) -> (enabled: Vec<&'static str>)
    ensures
        texts(enabled@) == enabled_surface_extensions(*available),
{
    let mut enabled: Vec<&'static str> = Vec::new();
    assert(texts(enabled@) =~= Seq::<Seq<char>>::empty());
    let names = match available {
        Some(names) => names,
        None => return enabled,
    };
    let all: [&'static str; 8] = [
        "VK_KHR_surface",
        "VK_EXT_headless_surface",
        "VK_KHR_xlib_surface",
        "VK_KHR_xcb_surface",
        "VK_KHR_wayland_surface",
        "VK_KHR_win32_surface",
        "VK_KHR_android_surface",
        "VK_EXT_metal_surface",
    ];
    let ghost wanted = surface_extensions();
    let ghost keeps = |name: Seq<char>| reports(names@, name);
    assert(texts(all@) =~= wanted);
    proof {
        reveal(Seq::filter);
    }
    assert(wanted.take(0).filter(keeps) =~= Seq::<Seq<char>>::empty());
    let mut i: usize = 0;
    while i < 8
        invariant
            i <= 8,
            all@.len() == 8,
            wanted.len() == 8,
            forall|j: int| 0 <= j < 8 ==> (#[trigger] all@[j])@ == wanted[j],
            keeps == (|name: Seq<char>| reports(names@, name)),
            texts(enabled@) == wanted.take(i as int).filter(keeps),
        decreases 8 - i,
    {
        let name = all[i];
        proof {
            reveal(Seq::filter);
            assert(wanted.take(i + 1).drop_last() =~= wanted.take(i as int));
            assert(wanted.take(i + 1).last() == name@);
        }
        if is_reported(names, name) {
            let ghost before = enabled@;
            enabled.push(name);
            assert(texts(enabled@) =~= texts(before).push(name@));
        }
        i += 1;
    }
    assert(wanted.take(8) =~= wanted);
    enabled
}

/// What is enabled was both wanted and reported, and everything wanted and
/// reported is enabled.
pub proof fn law_enabled_iff_wanted_and_reported(available: Option<Vec<String>>, name: Seq<char>)
    ensures
        enabled_surface_extensions(available).contains(name) <==> surface_extensions().contains(
            name,
        ) && (available matches Some(names) && reports(names@, name)),
{
    broadcast use vstd::seq_lib::group_filter_ensures;

    if let Some(names) = available {
        let keeps = |name: Seq<char>| reports(names@, name);
        let wanted = surface_extensions();
        if wanted.filter(keeps).contains(name) {
            wanted.lemma_filter_contains_rev(keeps, name);
            let kept = wanted.filter(keeps);
            let i = choose|i: int| 0 <= i < kept.len() && kept[i] == name;
            assert(keeps(kept[i]));
        }
        if wanted.contains(name) && keeps(name) {
            let i = choose|i: int| 0 <= i < wanted.len() && wanted[i] == name;
            assert(wanted.filter(keeps).contains(wanted[i]));
        }
    }
}

} // verus!
