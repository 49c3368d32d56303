//! Physical device selection: which devices the renderer can use, and
//! which of them it prefers.

use vstd::prelude::*;
use crate::vulkan::queues::{
    QueueFamilyInfo, QueueFamilyIndices, select_queue_families, spec_select_queue_families,
};
use crate::vulkan::surface::{SurfaceSupport, spec_swapchain_adequate, swapchain_adequate};
use crate::vulkan::version::{ApiVersion, spec_min_api_version};

verus! {

/// `VK_PHYSICAL_DEVICE_TYPE_DISCRETE_GPU`.
pub const DEVICE_TYPE_DISCRETE_GPU: i32 = 2;

/// Score bonus of a discrete GPU over any other device type.
pub const DISCRETE_GPU_BONUS: u32 = 1000;

/// Support of each device feature the renderer enables.
#[derive(Clone, Copy, Debug, Default, PartialEq, Eq, Structural)]
pub struct FeatureSupport {
    pub geometry_shader: bool,
    pub sampler_anisotropy: bool,
    pub sample_rate_shading: bool,
    pub multi_draw_indirect: bool,
    pub fill_mode_non_solid: bool,
    pub vertex_pipeline_stores_and_atomics: bool,
    pub fragment_stores_and_atomics: bool,
    pub shader_storage_image_multisample: bool,
    pub shader_int64: bool,
    pub shader_draw_parameters: bool,
    pub storage_buffer8_bit_access: bool,
    pub descriptor_indexing: bool,
    pub shader_sampled_image_array_non_uniform_indexing: bool,
    pub descriptor_binding_partially_bound: bool,
    pub runtime_descriptor_array: bool,
    pub timeline_semaphore: bool,
    pub buffer_device_address: bool,
    pub vulkan_memory_model: bool,
    pub vulkan_memory_model_device_scope: bool,
    pub synchronization2: bool,
    pub dynamic_rendering: bool,
}

impl FeatureSupport {
    /// Each required feature, labelled, with whether it is available.
    pub open spec fn spec_availability(self) -> Seq<(&'static str, bool)> {
        seq![
            ("Geometry shader availability", self.geometry_shader),
            ("Anisotropy availability", self.sampler_anisotropy),
            ("Sample rate shading availability", self.sample_rate_shading),
            ("Multi-draw indirect availability", self.multi_draw_indirect),
            ("Non-solid fill mode availability", self.fill_mode_non_solid),
            ("Vertex pipeline stores and atomics availability", self.vertex_pipeline_stores_and_atomics),
            ("Fragment stores and atomics availability", self.fragment_stores_and_atomics),
            ("Storage image multisample availability", self.shader_storage_image_multisample),
            ("64-bit integer shader support availability", self.shader_int64),
            ("Shader draw parameters availability", self.shader_draw_parameters),
            ("8-bit storage buffer access availability", self.storage_buffer8_bit_access),
            ("Descriptor indexing availability", self.descriptor_indexing),
            ("Non-uniform sampled image array indexing availability", self.shader_sampled_image_array_non_uniform_indexing),
            ("Partially bound descriptor binding availability", self.descriptor_binding_partially_bound),
            ("Runtime descriptor array availability", self.runtime_descriptor_array),
            ("Timeline semaphore availability", self.timeline_semaphore),
            ("Buffer device address availability", self.buffer_device_address),
            ("Vulkan memory model availability", self.vulkan_memory_model),
            ("Vulkan memory model device scope availability", self.vulkan_memory_model_device_scope),
            ("Synchronization2 availability", self.synchronization2),
            ("Dynamic rendering availability", self.dynamic_rendering),
        ]
    }

    /// Lists each required feature, labelled, with whether it is available,
    /// in the order the renderer checks them.
    pub fn availability(&self) -> (list: Vec<(&'static str, bool)>)
        ensures
            list@ == self.spec_availability(),
    {
        let list = vec![
            ("Geometry shader availability", self.geometry_shader),
            ("Anisotropy availability", self.sampler_anisotropy),
            ("Sample rate shading availability", self.sample_rate_shading),
            ("Multi-draw indirect availability", self.multi_draw_indirect),
            ("Non-solid fill mode availability", self.fill_mode_non_solid),
            ("Vertex pipeline stores and atomics availability", self.vertex_pipeline_stores_and_atomics),
            ("Fragment stores and atomics availability", self.fragment_stores_and_atomics),
            ("Storage image multisample availability", self.shader_storage_image_multisample),
            ("64-bit integer shader support availability", self.shader_int64),
            ("Shader draw parameters availability", self.shader_draw_parameters),
            ("8-bit storage buffer access availability", self.storage_buffer8_bit_access),
            ("Descriptor indexing availability", self.descriptor_indexing),
            ("Non-uniform sampled image array indexing availability", self.shader_sampled_image_array_non_uniform_indexing),
            ("Partially bound descriptor binding availability", self.descriptor_binding_partially_bound),
            ("Runtime descriptor array availability", self.runtime_descriptor_array),
            ("Timeline semaphore availability", self.timeline_semaphore),
            ("Buffer device address availability", self.buffer_device_address),
            ("Vulkan memory model availability", self.vulkan_memory_model),
            ("Vulkan memory model device scope availability", self.vulkan_memory_model_device_scope),
            ("Synchronization2 availability", self.synchronization2),
            ("Dynamic rendering availability", self.dynamic_rendering),
        ];
        assert(list@ =~= self.spec_availability());
        list
    }

    /// Whether every required feature is available.
    pub open spec fn spec_all_available(self) -> bool {
        forall|i: int| 0 <= i < self.spec_availability().len() ==> #[trigger] self.spec_availability()[i].1
    }

    /// Returns whether every required feature is available.
    pub fn all_available(&self) -> (all: bool)
        ensures
            all == self.spec_all_available(),
    {
        let list = self.availability();
        let mut index: usize = 0;
        while index < list.len()
            invariant
                list@ == self.spec_availability(),
                0 <= index <= list@.len(),
                forall|j: int| 0 <= j < index ==> #[trigger] list@[j].1,
            decreases list@.len() - index,
        {
            if !list[index].1 {
                return false;
            }
            index = index + 1;
        }
        true
    }
}

/// Names of the device extensions the renderer requires.
pub open spec fn spec_required_extensions() -> Seq<Seq<char>> {
    seq!["VK_KHR_swapchain"@]
}

/// Returns the names of the device extensions the renderer requires.
pub fn required_extensions() -> (names: Vec<String>)
    ensures
        names@.len() == spec_required_extensions().len(),
        forall|i: int| 0 <= i < names@.len() ==> #[trigger] names@[i]@
            == spec_required_extensions()[i],
{
    let swapchain = String::from_str("VK_KHR_swapchain");
    let names = vec![swapchain];
    names
}

/// Whether `name` is among the available extension names.
pub open spec fn offers(available: Seq<String>, name: Seq<char>) -> bool {
    exists|a: int| 0 <= a < available.len() && (#[trigger] available[a])@ == name
}

/// Whether every required extension is among the available ones.
pub open spec fn spec_extensions_supported(available: Seq<String>) -> bool {
    forall|r: int|
        0 <= r < spec_required_extensions().len() ==> #[trigger] offers(
            available,
            spec_required_extensions()[r],
        )
}

fn offers_name(available: &[String], name: &String) -> (found: bool)
    ensures
        found == offers(available@, name@),
{
    let mut a: usize = 0;
    while a < available.len()
        invariant
            0 <= a <= available@.len(),
            forall|j: int| 0 <= j < a ==> (#[trigger] available@[j])@ != name@,
        decreases available@.len() - a,
    {
        if available[a] == *name {
            return true;
        }
        a = a + 1;
    }
    false
}

/// Checks that the device offers every extension the renderer requires.
pub fn extensions_supported(available: &[String]) -> (supported: bool)
    ensures
        supported == spec_extensions_supported(available@),
{
    let required = required_extensions();
    let mut r: usize = 0;
    while r < required.len()
        invariant
            required@.len() == spec_required_extensions().len(),
            forall|i: int| 0 <= i < required@.len() ==> #[trigger] required@[i]@
                == spec_required_extensions()[i],
            0 <= r <= required@.len(),
            forall|k: int|
                0 <= k < r ==> #[trigger] offers(available@, spec_required_extensions()[k]),
        decreases required@.len() - r,
    {
        let found = offers_name(available, &required[r]);
        assert(required@[r as int]@ == spec_required_extensions()[r as int]);
        if !found {
            return false;
        }
        r = r + 1;
    }
    true
}

/// What the renderer learns about one physical device before choosing.
#[derive(Clone, Debug)]
pub struct DeviceReport {
    /// Packed API version of the device.
    pub api_version: u32,
    pub device_type: i32,
    pub max_image_dimension_2d: u32,
    /// The device's queue families, in order.
    pub queue_families: Vec<QueueFamilyInfo>,
    pub features: FeatureSupport,
    /// Names of the extensions the device offers.
    pub extensions: Vec<String>,
    /// What the target surface supports on this device; queried only when
    /// the required extensions are offered.
    pub surface: Option<SurfaceSupport>,
}

/// Whether a device meets every condition the renderer puts on it.
pub open spec fn spec_device_suitable(report: DeviceReport) -> bool {
    &&& !ApiVersion::spec_from_packed(report.api_version).spec_lt(spec_min_api_version())
    &&& spec_select_queue_families(report.queue_families@) is Some
    &&& report.features.spec_all_available()
    &&& spec_extensions_supported(report.extensions@)
    &&& match report.surface {
        Some(support) => spec_swapchain_adequate(support),
        None => false,
    }
}

/// Preference score: a bonus for discrete GPUs plus the largest 2D image
/// dimension.
pub open spec fn spec_device_score(report: DeviceReport) -> int {
    (if report.device_type == DEVICE_TYPE_DISCRETE_GPU {
        DISCRETE_GPU_BONUS as int
    } else {
        0
    }) + report.max_image_dimension_2d
}

/// Index of the preferred device among the first `n`: the suitable device
/// with the highest score, the later one on a tie.
pub open spec fn spec_best_among(reports: Seq<DeviceReport>, n: nat) -> Option<int>
    decreases n,
{
    if n == 0 {
        None
    } else {
        let best = spec_best_among(reports, (n - 1) as nat);
        let candidate = reports[n - 1];
        if !spec_device_suitable(candidate) {
            best
        } else {
            match best {
                None => Some(n - 1),
                Some(j) => if spec_device_score(candidate) >= spec_device_score(reports[j]) {
                    Some(n - 1)
                } else {
                    Some(j)
                },
            }
        }
    }
}

/// The device the renderer picks.
#[derive(Clone, Copy, Debug, PartialEq, Eq, Structural)]
pub struct DeviceChoice {
    /// Position of the device in the reports.
    pub index: usize,
    pub queue_families: QueueFamilyIndices,
    pub score: u32,
}

/// Why no device was picked.
#[derive(Clone, Copy, Debug, PartialEq, Eq, Structural)]
pub enum DeviceSelectionError {
    /// No physical devices were suitable.
    NoSuitablePhysicalDevice,
}

/// Whether no suitable device's score overflows a `u32`.
pub open spec fn scores_fit(reports: Seq<DeviceReport>) -> bool {
    forall|i: int|
        0 <= i < reports.len() && spec_device_suitable(#[trigger] reports[i])
            ==> spec_device_score(reports[i]) <= u32::MAX
}

/// Returns whether a device meets every condition the renderer puts on it.
pub fn device_suitable(report: &DeviceReport) -> (suitable: bool)
    requires
        report.queue_families@.len() <= u32::MAX,
    ensures
        suitable == spec_device_suitable(*report),
{
    let version = ApiVersion::from_packed(report.api_version);
    if version.older_than(&ApiVersion::min_supported()) {
        return false;
    }
    if select_queue_families(report.queue_families.as_slice()).is_none() {
        return false;
    }
    if !report.features.all_available() {
        return false;
    }
    if !extensions_supported(report.extensions.as_slice()) {
        return false;
    }
    match &report.surface {
        Some(support) => swapchain_adequate(support),
        None => false,
    }
}

/// Evaluates one device: its queue families and score when it is
/// suitable.
pub fn evaluate_device(report: &DeviceReport) -> (verdict: Option<(QueueFamilyIndices, u32)>)
    requires
        report.queue_families@.len() <= u32::MAX,
        spec_device_suitable(*report) ==> spec_device_score(*report) <= u32::MAX,
    ensures
        verdict is Some <==> spec_device_suitable(*report),
        verdict matches Some((families, score)) ==> {
            &&& spec_select_queue_families(report.queue_families@) == Some(families)
            &&& score == spec_device_score(*report)
        },
{
    let version = ApiVersion::from_packed(report.api_version);
    if version.older_than(&ApiVersion::min_supported()) {
        return None;
    }
    let families = match select_queue_families(report.queue_families.as_slice()) {
        Some(families) => families,
        None => return None,
    };
    if !report.features.all_available() {
        return None;
    }
    if !extensions_supported(report.extensions.as_slice()) {
        return None;
    }
    let adequate = match &report.surface {
        Some(support) => swapchain_adequate(support),
        None => false,
    };
    if !adequate {
        return None;
    }
    let bonus: u32 = if report.device_type == DEVICE_TYPE_DISCRETE_GPU {
        DISCRETE_GPU_BONUS
    } else {
        0
    };
    Some((families, bonus + report.max_image_dimension_2d))
}

/// Picks the physical device to render with: the suitable device with the
/// highest score, the later one on a tie.
pub fn pick_physical_device(reports: &[DeviceReport]) -> (choice: Result<
    DeviceChoice,
    DeviceSelectionError,
>)
    requires
        forall|i: int| 0 <= i < reports@.len() ==> (#[trigger] reports@[i]).queue_families@.len()
            <= u32::MAX,
        scores_fit(reports@),
    ensures
        match choice {
            Ok(c) => {
                &&& spec_best_among(reports@, reports@.len()) == Some(c.index as int)
                &&& spec_select_queue_families(reports@[c.index as int].queue_families@) == Some(
                    c.queue_families,
                )
                &&& c.score == spec_device_score(reports@[c.index as int])
            },
            Err(e) => spec_best_among(reports@, reports@.len()) is None
                && e == DeviceSelectionError::NoSuitablePhysicalDevice,
        },
{
    let mut best: Option<DeviceChoice> = None;
    let mut index: usize = 0;
    while index < reports.len()
        invariant
            0 <= index <= reports@.len(),
            forall|i: int| 0 <= i < reports@.len() ==> (#[trigger] reports@[i]).queue_families@.len()
                <= u32::MAX,
            scores_fit(reports@),
            match best {
                Some(c) => {
                    &&& spec_best_among(reports@, index as nat) == Some(c.index as int)
                    &&& c.index < index
                    &&& spec_select_queue_families(reports@[c.index as int].queue_families@)
                        == Some(c.queue_families)
                    &&& c.score == spec_device_score(reports@[c.index as int])
                },
                None => spec_best_among(reports@, index as nat) is None,
            },
        decreases reports@.len() - index,
    {
        let report = &reports[index];
        assert(report.queue_families@.len() <= u32::MAX);
        match evaluate_device(report) {
            Some((queue_families, score)) => {
                let replace = match &best {
                    None => true,
                    Some(current) => score >= current.score,
                };
                if replace {
                    best = Some(DeviceChoice { index, queue_families, score });
                }
            },
            None => {},
        }
        index = index + 1;
    }
    match best {
        Some(c) => Ok(c),
        None => Err(DeviceSelectionError::NoSuitablePhysicalDevice),
    }
}

/// The preferred device is suitable, no suitable device scores higher, and
/// every suitable device after it scores strictly lower.
pub proof fn lemma_best_is_preferred(reports: Seq<DeviceReport>, n: nat)
    requires
        n <= reports.len(),
    ensures
        match spec_best_among(reports, n) {
            Some(b) => {
                &&& 0 <= b < n
                &&& spec_device_suitable(reports[b])
                &&& forall|j: int|
                    0 <= j < n && spec_device_suitable(#[trigger] reports[j])
                        ==> spec_device_score(reports[j]) <= spec_device_score(reports[b])
                &&& forall|j: int|
                    b < j < n && spec_device_suitable(#[trigger] reports[j])
                        ==> spec_device_score(reports[j]) < spec_device_score(reports[b])
            },
            None => forall|j: int| 0 <= j < n ==> !spec_device_suitable(#[trigger] reports[j]),
        },
    decreases n,
{
    if n > 0 {
        lemma_best_is_preferred(reports, (n - 1) as nat);
    }
}

/// The distinct queue families among `families`, in first-seen order,
/// considering the first `n`.
pub open spec fn spec_distinct_prefix(families: Seq<u32>, n: nat) -> Seq<u32>
    decreases n,
{
    if n == 0 {
        Seq::empty()
    } else {
        let before = spec_distinct_prefix(families, (n - 1) as nat);
        if before.contains(families[n - 1]) {
            before
        } else {
            before.push(families[n - 1])
        }
    }
}

/// The queue families that need a queue: graphics, present, compute and
/// transfer, each once, in that order of first appearance.
pub open spec fn spec_unique_queue_families(indices: QueueFamilyIndices) -> Seq<u32> {
    spec_distinct_prefix(
        seq![indices.graphics, indices.present, indices.compute, indices.transfer],
        4,
    )
}

/// Lists the queue families the logical device must create queues for.
pub fn unique_queue_families(indices: &QueueFamilyIndices) -> (families: Vec<u32>)
    ensures
        families@ == spec_unique_queue_families(*indices),
{
    let all = [indices.graphics, indices.present, indices.compute, indices.transfer];
    let ghost s = seq![indices.graphics, indices.present, indices.compute, indices.transfer];
    assert(all@ == s);
    let mut families: Vec<u32> = Vec::with_capacity(4);
    let mut i: usize = 0;
    while i < 4
        invariant
            all@ == s,
            0 <= i <= 4,
            families@ == spec_distinct_prefix(s, i as nat),
        decreases 4 - i,
    {
        let family = all[i];
        let mut seen = false;
        let mut k: usize = 0;
        while k < families.len()
            invariant
                0 <= k <= families@.len(),
                seen <==> exists|j: int| 0 <= j < k && families@[j] == family,
            decreases families@.len() - k,
        {
            if families[k] == family {
                seen = true;
            }
            k = k + 1;
        }
        if !seen {
            families.push(family);
        }
        i = i + 1;
    }
    families
}

/// Distinct families never repeat.
pub proof fn lemma_distinct_prefix_no_duplicates(families: Seq<u32>, n: nat)
    requires
        n <= families.len(),
    ensures
        spec_distinct_prefix(families, n).no_duplicates(),
        forall|x: u32| #[trigger] spec_distinct_prefix(families, n).contains(x)
            <==> exists|j: int| 0 <= j < n && families[j] == x,
    decreases n,
{
    if n > 0 {
        lemma_distinct_prefix_no_duplicates(families, (n - 1) as nat);
        let before = spec_distinct_prefix(families, (n - 1) as nat);
        assert forall|x: u32| #[trigger] spec_distinct_prefix(families, n).contains(x)
            <==> exists|j: int| 0 <= j < n && families[j] == x by {
            if exists|j: int| 0 <= j < n && families[j] == x {
                let j = choose|j: int| 0 <= j < n && families[j] == x;
                if j < n - 1 {
                    assert(before.contains(x));
                    if !before.contains(families[n - 1]) {
                        assert(before.push(families[n - 1])[before.index_of(x)] == x);
                    }
                } else {
                    if !before.contains(families[n - 1]) {
                        assert(before.push(families[n - 1])[before.len() as int] == x);
                    }
                }
            }
            if spec_distinct_prefix(families, n).contains(x) && !before.contains(families[n - 1]) {
                let pushed = before.push(families[n - 1]);
                let k = choose|k: int| 0 <= k < pushed.len() && #[trigger] pushed[k] == x;
                if k < before.len() {
                    assert(before[k] == x);
                    assert(before.contains(x));
                }
            }
        }
    }
}

/// Feature `i` of the required list is supported exactly when the
/// corresponding field is set.
#[verifier::spinoff_prover]
#[verifier::rlimit(50)]
proof fn lemma_availability_flags(features: FeatureSupport)
    ensures
        features.spec_availability().len() == 21,
        features.spec_availability()[0].1 == features.geometry_shader,
        features.spec_availability()[1].1 == features.sampler_anisotropy,
        features.spec_availability()[2].1 == features.sample_rate_shading,
        features.spec_availability()[3].1 == features.multi_draw_indirect,
        features.spec_availability()[4].1 == features.fill_mode_non_solid,
        features.spec_availability()[5].1 == features.vertex_pipeline_stores_and_atomics,
        features.spec_availability()[6].1 == features.fragment_stores_and_atomics,
        features.spec_availability()[7].1 == features.shader_storage_image_multisample,
        features.spec_availability()[8].1 == features.shader_int64,
        features.spec_availability()[9].1 == features.shader_draw_parameters,
        features.spec_availability()[10].1 == features.storage_buffer8_bit_access,
        features.spec_availability()[11].1 == features.descriptor_indexing,
        features.spec_availability()[12].1 == features.shader_sampled_image_array_non_uniform_indexing,
        features.spec_availability()[13].1 == features.descriptor_binding_partially_bound,
        features.spec_availability()[14].1 == features.runtime_descriptor_array,
        features.spec_availability()[15].1 == features.timeline_semaphore,
        features.spec_availability()[16].1 == features.buffer_device_address,
        features.spec_availability()[17].1 == features.vulkan_memory_model,
        features.spec_availability()[18].1 == features.vulkan_memory_model_device_scope,
        features.spec_availability()[19].1 == features.synchronization2,
        features.spec_availability()[20].1 == features.dynamic_rendering,
{
}

/// A device's features count as all available exactly when every one of
/// the twenty-one features the renderer enables is supported.
#[verifier::spinoff_prover]
#[verifier::rlimit(50)]
pub proof fn lemma_all_available_means_every_feature(features: FeatureSupport)
    ensures
        features.spec_all_available() <==> {
            &&& features.geometry_shader
            &&& features.sampler_anisotropy
            &&& features.sample_rate_shading
            &&& features.multi_draw_indirect
            &&& features.fill_mode_non_solid
            &&& features.vertex_pipeline_stores_and_atomics
            &&& features.fragment_stores_and_atomics
            &&& features.shader_storage_image_multisample
            &&& features.shader_int64
            &&& features.shader_draw_parameters
            &&& features.storage_buffer8_bit_access
            &&& features.descriptor_indexing
            &&& features.shader_sampled_image_array_non_uniform_indexing
            &&& features.descriptor_binding_partially_bound
            &&& features.runtime_descriptor_array
            &&& features.timeline_semaphore
            &&& features.buffer_device_address
            &&& features.vulkan_memory_model
            &&& features.vulkan_memory_model_device_scope
            &&& features.synchronization2
            &&& features.dynamic_rendering
        },
{
    lemma_availability_flags(features);
    let a = features.spec_availability();
    if features.spec_all_available() {
        assert(a[0].1);
        assert(a[1].1);
        assert(a[2].1);
        assert(a[3].1);
        assert(a[4].1);
        assert(a[5].1);
        assert(a[6].1);
        assert(a[7].1);
        assert(a[8].1);
        assert(a[9].1);
        assert(a[10].1);
        assert(a[11].1);
        assert(a[12].1);
        assert(a[13].1);
        assert(a[14].1);
        assert(a[15].1);
        assert(a[16].1);
        assert(a[17].1);
        assert(a[18].1);
        assert(a[19].1);
        assert(a[20].1);
    } else {
        let i = choose|i: int| 0 <= i < a.len() && !#[trigger] a[i].1;
        if i == 0 {
        } else if i == 1 {
        } else if i == 2 {
        } else if i == 3 {
        } else if i == 4 {
        } else if i == 5 {
        } else if i == 6 {
        } else if i == 7 {
        } else if i == 8 {
        } else if i == 9 {
        } else if i == 10 {
        } else if i == 11 {
        } else if i == 12 {
        } else if i == 13 {
        } else if i == 14 {
        } else if i == 15 {
        } else if i == 16 {
        } else if i == 17 {
        } else if i == 18 {
        } else if i == 19 {
        } else if i == 20 {
        }
    }
}

/// A device lacking any required feature is never suitable.
pub proof fn lemma_missing_feature_rejects_device(report: DeviceReport)
    requires
        !report.features.geometry_shader || !report.features.dynamic_rendering
            || !report.features.buffer_device_address || !report.features.spec_all_available(),
    ensures
        !spec_device_suitable(report),
{
    lemma_all_available_means_every_feature(report.features);
}

} // verus!
