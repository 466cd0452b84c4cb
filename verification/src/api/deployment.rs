//! Deployments: which steps of an orchestrator's deployment this device runs,
//! what it has to download for them, and how its endpoints, chain links and
//! mounts are looked up afterwards.
use crate::constants::{spec_deployments_folder, spec_module_folder, spec_params_folder};
use crate::constants::{module_folder, params_folder};
use crate::path::{join_path, path_join};
use crate::strmap::{distinct_keys, entries_map, lemma_entries_map_at, StrMap};
use crate::structs::deployment_orchestrator::{
    mount_views,
    DeploymentDoc,
    Endpoint,
    Instructions,
    MountPathFile,
    StageMounts,
    Step,
};
use crate::structs::module_orchestrator::MountStage;
use crate::text::str_eq;
use crate::utils::{get_deployment_path, get_module_path, get_params_path, spec_params_path};
use crate::wasmtime::ModuleConfig;
use vstd::prelude::*;

verus! {

/// Why a deployment document is refused.
#[derive(Debug, Clone, Copy, PartialEq, Eq, Structural)]
pub enum DeploymentError {
    /// The document does not say which device this one is.
    MissingMyId,
    /// No step of the document runs on this device.
    NoStepsForDevice,
}

impl DeploymentError {
    /// The text of the error.
    pub fn message(&self) -> (r: String)
        ensures
            r@ == match self {
                DeploymentError::MissingMyId => "Missing myId in deployment"@,
                DeploymentError::NoStepsForDevice => "No steps in fullManifest.sequence for this device"@,
            },
    {
        match self {
            DeploymentError::MissingMyId => "Missing myId in deployment".to_string(),
            DeploymentError::NoStepsForDevice => "No steps in fullManifest.sequence for this device".to_string(),
        }
    }
}

/// The positions, below `n`, of the steps of `seq` that run on `device_id`.
pub open spec fn steps_on_device_upto(seq: Seq<Step>, device_id: Seq<char>, n: nat) -> Seq<usize>
    decreases n,
{
    if n == 0 {
        Seq::empty()
    } else {
        let before = steps_on_device_upto(seq, device_id, (n - 1) as nat);
        if seq[n - 1].device_id@ == device_id {
            before.push((n - 1) as usize)
        } else {
            before
        }
    }
}

/// The positions of the steps of `seq` that run on `device_id`, in order.
pub open spec fn steps_on_device(seq: Seq<Step>, device_id: Seq<char>) -> Seq<usize> {
    steps_on_device_upto(seq, device_id, seq.len())
}

/// For the first `n` of the positions `mine`: each module id used, mapped to
/// the first position that uses it.
pub open spec fn first_module_uses(seq: Seq<Step>, mine: Seq<usize>, n: nat) -> Map<Seq<char>, usize>
    decreases n,
{
    if n == 0 {
        Map::empty()
    } else {
        let before = first_module_uses(seq, mine, (n - 1) as nat);
        let i = mine[n - 1];
        let k = seq[i as int].module.id@;
        if before.contains_key(k) {
            before
        } else {
            before.insert(k, i)
        }
    }
}

/// Whether step `s` runs `function_name` of `module_name`.
pub open spec fn runs_function(s: Step, module_name: Seq<char>, function_name: Seq<char>) -> bool {
    s.module.name@ == module_name && s.function_name@ == function_name
}

/// The first `n` of the positions `mine` whose steps run the given function.
pub open spec fn function_steps_upto(
    seq: Seq<Step>,
    mine: Seq<usize>,
    module_name: Seq<char>,
    function_name: Seq<char>,
    n: nat,
) -> Seq<usize>
    decreases n,
{
    if n == 0 {
        Seq::empty()
    } else {
        let before = function_steps_upto(seq, mine, module_name, function_name, (n - 1) as nat);
        if runs_function(seq[mine[n - 1] as int], module_name, function_name) {
            before.push(mine[n - 1])
        } else {
            before
        }
    }
}

/// The mounts of one stage of a step.
pub open spec fn stage_list(m: StageMounts, stage: MountStage) -> Seq<MountPathFile> {
    match stage {
        MountStage::Deployment => m.deployment@,
        MountStage::Execution => m.execution@,
        MountStage::Output => m.output@,
    }
}

/// Mounts tagged with the stage they belong to.
pub open spec fn staged(v: Seq<MountPathFile>, stage: MountStage) -> Seq<
    (Seq<char>, Seq<char>, Option<MountStage>),
> {
    v.map_values(|m: MountPathFile| (m.path@, m.media_type@, Some(stage)))
}

/// The mounts of `stage` of the steps at the positions `idx`, one step after
/// the other, each tagged with the stage.
pub open spec fn collected_mounts(seq: Seq<Step>, idx: Seq<usize>, stage: MountStage) -> Seq<
    (Seq<char>, Seq<char>, Option<MountStage>),
>
    decreases idx.len(),
{
    if idx.len() == 0 {
        Seq::empty()
    } else {
        collected_mounts(seq, idx.drop_last(), stage) + staged(
            stage_list(seq[idx.last() as int].mounts, stage),
            stage,
        )
    }
}

/// A deployment as this device holds it: the whole sequence of steps of the
/// deployment, the positions of the steps that run here, and the modules
/// those steps use.
#[derive(Debug)]
pub struct Deployment {
    /// The deployment's id.
    pub id: String,
    /// The id of this device in the deployment.
    pub device_id: String,
    /// All steps of the deployment, in order.
    pub sequence: Vec<Step>,
    /// The positions in `sequence` of the steps that run on this device.
    pub my_steps: Vec<usize>,
    /// Each module id used by this device's steps, mapped to the position of
    /// the first step that uses it.
    pub modules: StrMap<usize>,
}

/// Lays out a deployment document for this device: the steps that run on
/// the device named by the document's `myId`, the deployment id of the first
/// of them, and the modules those steps use.
pub fn plan_deployment(doc: DeploymentDoc) -> (r: Result<Deployment, DeploymentError>)
    ensures
        doc.my_id@.len() == 0 ==> r == Err::<Deployment, DeploymentError>(
            DeploymentError::MissingMyId,
        ),
        doc.my_id@.len() > 0 && steps_on_device(doc.full_manifest.sequence@, doc.my_id@).len() == 0
            ==> r == Err::<Deployment, DeploymentError>(DeploymentError::NoStepsForDevice),
        doc.my_id@.len() > 0 && steps_on_device(doc.full_manifest.sequence@, doc.my_id@).len() > 0
            ==> (r matches Ok(d) && d.wf() && d.device_id@ == doc.my_id@ && d.sequence@
            == doc.full_manifest.sequence@ && d.id@ == doc.full_manifest.sequence@[steps_on_device(
            doc.full_manifest.sequence@,
            doc.my_id@,
        )[0] as int].deployment_id@),
{
    if doc.my_id.as_str().is_empty() {
        return Err(DeploymentError::MissingMyId);
    }
    let sequence = doc.full_manifest.sequence;
    let my_id = doc.my_id;
    let mut mine: Vec<usize> = Vec::new();
    let mut i: usize = 0;
    while i < sequence.len()
        invariant
            i <= sequence@.len(),
            mine@ == steps_on_device_upto(sequence@, my_id@, i as nat),
        decreases sequence@.len() - i,
    {
        if str_eq(sequence[i].device_id.as_str(), my_id.as_str()) {
            mine.push(i);
        }
        i = i + 1;
    }
    if mine.len() == 0 {
        return Err(DeploymentError::NoStepsForDevice);
    }
    proof {
        lemma_steps_on_device_bounded(sequence@, my_id@, sequence@.len());
    }
    let mut modules: StrMap<usize> = StrMap::new();
    let mut k: usize = 0;
    while k < mine.len()
        invariant
            k <= mine@.len(),
            mine@ == steps_on_device(sequence@, my_id@),
            forall|j: int| 0 <= j < mine@.len() ==> #[trigger] mine@[j] < sequence@.len(),
            modules@ == first_module_uses(sequence@, mine@, k as nat),
        decreases mine@.len() - k,
    {
        let pos = mine[k];
        let module_id = &sequence[pos].module.id;
        if !modules.contains_key(module_id.as_str()) {
            modules.insert(module_id.clone(), pos);
        }
        k = k + 1;
    }
    let id = sequence[mine[0]].deployment_id.clone();
    let d = Deployment { id, device_id: my_id, sequence, my_steps: mine, modules };
    Ok(d)
}

/// The positions of the steps on a device are increasing positions of the
/// sequence.
pub proof fn lemma_steps_on_device_bounded(seq: Seq<Step>, device_id: Seq<char>, n: nat)
    requires
        n <= seq.len(),
    ensures
        forall|j: int|
            0 <= j < steps_on_device_upto(seq, device_id, n).len() ==> #[trigger] steps_on_device_upto(
                seq,
                device_id,
                n,
            )[j] < n,
    decreases n,
{
    if n > 0 {
        lemma_steps_on_device_bounded(seq, device_id, (n - 1) as nat);
        let before = steps_on_device_upto(seq, device_id, (n - 1) as nat);
        let cur = steps_on_device_upto(seq, device_id, n);
        assert forall|j: int| 0 <= j < cur.len() implies #[trigger] cur[j] < n by {
            if j < before.len() {
                assert(cur[j] == before[j]);
            }
        }
    }
}

impl Deployment {
    /// The positions of this device's steps are exactly those of the steps
    /// that run on its id.
    pub open spec fn wf(self) -> bool {
        &&& self.my_steps@ == steps_on_device(self.sequence@, self.device_id@)
        &&& self.modules@ == first_module_uses(self.sequence@, self.my_steps@, self.my_steps@.len())
    }

    /// The positions of this device's steps that run the given function, in
    /// order.
    pub open spec fn spec_function_steps(self, module_name: Seq<char>, function_name: Seq<char>) -> Seq<
        usize,
    > {
        function_steps_upto(
            self.sequence@,
            self.my_steps@,
            module_name,
            function_name,
            self.my_steps@.len(),
        )
    }

    /// The positions of this device's steps that run `function_name` of
    /// `module_name`.
    pub fn function_steps(&self, module_name: &str, function_name: &str) -> (r: Vec<usize>)
        requires
            self.wf(),
        ensures
            r@ == self.spec_function_steps(module_name@, function_name@),
            forall|j: int| 0 <= j < r@.len() ==> #[trigger] r@[j] < self.sequence@.len(),
            forall|j: int|
                0 <= j < r@.len() ==> {
                    &&& self.sequence@[#[trigger] r@[j] as int].module.name@ == module_name@
                    &&& self.sequence@[r@[j] as int].function_name@ == function_name@
                    &&& self.sequence@[r@[j] as int].device_id@ == self.device_id@
                },
            forall|i: int|
                0 <= i < self.sequence@.len() && self.sequence@[i].device_id@ == self.device_id@
                    && #[trigger] self.sequence@[i].module.name@ == module_name@
                    && self.sequence@[i].function_name@ == function_name@ ==> exists|j: int|
                    0 <= j < r@.len() && #[trigger] r@[j] == i,
            forall|j: int, k: int| 0 <= j < k < r@.len() ==> #[trigger] r@[j] < #[trigger] r@[k],
    {
        // The steps are held in a vector, so their number fits in `usize`.
        let _steps_len: usize = self.sequence.len();
        proof {
            lemma_steps_on_device_bounded(self.sequence@, self.device_id@, self.sequence@.len());
            law_function_steps_are_the_devices_steps_running_it(*self, module_name@, function_name@);
        }
        let mut r: Vec<usize> = Vec::new();
        let mut k: usize = 0;
        while k < self.my_steps.len()
            invariant
                k <= self.my_steps@.len(),
                self.wf(),
                forall|j: int| 0 <= j < self.my_steps@.len() ==> #[trigger] self.my_steps@[j] < self.sequence@.len(),
                r@ == function_steps_upto(
                    self.sequence@,
                    self.my_steps@,
                    module_name@,
                    function_name@,
                    k as nat,
                ),
                forall|j: int| 0 <= j < r@.len() ==> #[trigger] r@[j] < self.sequence@.len(),
            decreases self.my_steps@.len() - k,
        {
            let pos = self.my_steps[k];
            let step = &self.sequence[pos];
            if str_eq(step.module.name.as_str(), module_name) && str_eq(
                step.function_name.as_str(),
                function_name,
            ) {
                r.push(pos);
            }
            k = k + 1;
        }
        r
    }

    /// The endpoint of `function_name` of `module_name`: that of the first of
    /// this device's steps that runs it.
    pub fn endpoint(&self, module_name: &str, function_name: &str) -> (r: Option<&Endpoint>)
        requires
            self.wf(),
        ensures
            self.spec_function_steps(module_name@, function_name@).len() == 0 ==> r is None,
            self.spec_function_steps(module_name@, function_name@).len() > 0 ==> r == Some(
                &self.sequence@[self.spec_function_steps(module_name@, function_name@)[0] as int].endpoint,
            ),
            r matches Some(e) ==> exists|p: int|
                0 <= p < self.sequence@.len() && #[trigger] self.sequence@[p].module.name@ == module_name@
                    && self.sequence@[p].function_name@ == function_name@ && self.sequence@[p].device_id@
                    == self.device_id@ && *e == self.sequence@[p].endpoint && forall|i: int|
                    0 <= i < p && self.sequence@[i].device_id@ == self.device_id@ ==> !(
                    #[trigger] self.sequence@[i].module.name@ == module_name@
                        && self.sequence@[i].function_name@ == function_name@),
            r is None ==> forall|i: int|
                0 <= i < self.sequence@.len() && self.sequence@[i].device_id@ == self.device_id@
                    ==> !(#[trigger] self.sequence@[i].module.name@ == module_name@
                    && self.sequence@[i].function_name@ == function_name@),
    {
        let steps = self.function_steps(module_name, function_name);
        if steps.len() == 0 {
            None
        } else {
            Some(&self.sequence[steps[0]].endpoint)
        }
    }

    /// The chain links of `function_name` of `module_name`: the instructions
    /// of each of this device's steps that runs it, in order.
    pub fn instructions(&self, module_name: &str, function_name: &str) -> (r: Vec<&Instructions>)
        requires
            self.wf(),
        ensures
            r@.len() == self.spec_function_steps(module_name@, function_name@).len(),
            forall|j: int|
                0 <= j < r@.len() ==> *#[trigger] r@[j] == self.sequence@[self.spec_function_steps(
                    module_name@,
                    function_name@,
                )[j] as int].instructions,
    {
        let steps = self.function_steps(module_name, function_name);
        let mut r: Vec<&Instructions> = Vec::new();
        let mut j: usize = 0;
        while j < steps.len()
            invariant
                j <= steps@.len(),
                steps@ == self.spec_function_steps(module_name@, function_name@),
                forall|t: int| 0 <= t < steps@.len() ==> #[trigger] steps@[t] < self.sequence@.len(),
                r@.len() == j,
                forall|t: int|
                    0 <= t < j ==> *#[trigger] r@[t] == self.sequence@[steps@[t] as int].instructions,
            decreases steps@.len() - j,
        {
            r.push(&self.sequence[steps[j]].instructions);
            j = j + 1;
        }
        r
    }

    /// The files mounted at `stage` for `function_name` of `module_name`: the
    /// mounts of that stage of each of this device's steps that runs it, one
    /// step after the other, each tagged with the stage.
    pub fn mounts(&self, module_name: &str, function_name: &str, stage: MountStage) -> (r: Vec<
        MountPathFile,
    >)
        requires
            self.wf(),
        ensures
            mount_views(r@) == collected_mounts(
                self.sequence@,
                self.spec_function_steps(module_name@, function_name@),
                stage,
            ),
    {
        let steps = self.function_steps(module_name, function_name);
        let mut r: Vec<MountPathFile> = Vec::new();
        let mut j: usize = 0;
        while j < steps.len()
            invariant
                j <= steps@.len(),
                steps@ == self.spec_function_steps(module_name@, function_name@),
                forall|t: int| 0 <= t < steps@.len() ==> #[trigger] steps@[t] < self.sequence@.len(),
                mount_views(r@) == collected_mounts(self.sequence@, steps@.take(j as int), stage),
            decreases steps@.len() - j,
        {
            let step_mounts = &self.sequence[steps[j]].mounts;
            let list = match stage {
                MountStage::Deployment => &step_mounts.deployment,
                MountStage::Execution => &step_mounts.execution,
                MountStage::Output => &step_mounts.output,
            };
            let ghost before = r@;
            let mut t: usize = 0;
            while t < list.len()
                invariant
                    t <= list@.len(),
                    mount_views(r@) == mount_views(before) + staged(list@.take(t as int), stage),
                decreases list@.len() - t,
            {
                let m = &list[t];
                let ghost prev = r@;
                r.push(
                    MountPathFile {
                        path: m.path.clone(),
                        media_type: m.media_type.clone(),
                        stage: Some(stage),
                    },
                );
                proof {
                    assert(mount_views(r@) =~= mount_views(prev).push(
                        (m.path@, m.media_type@, Some(stage)),
                    ));
                    assert(staged(list@.take(t + 1), stage) =~= staged(list@.take(t as int), stage).push(
                        (m.path@, m.media_type@, Some(stage)),
                    ));
                    assert(mount_views(r@) =~= mount_views(before) + staged(list@.take(t + 1), stage));
                }
                t = t + 1;
            }
            proof {
                assert(list@.take(list@.len() as int) =~= list@);
                assert(steps@.take(j + 1).drop_last() =~= steps@.take(j as int));
                assert(list@ == stage_list(self.sequence@[steps@[j as int] as int].mounts, stage));
            }
            j = j + 1;
        }
        proof {
            assert(steps@.take(steps@.len() as int) =~= steps@);
        }
        r
    }

    /// The chain link of step `step_index` of the whole deployment.
    pub fn step_link(&self, step_index: usize) -> (r: Option<&Instructions>)
        ensures
            step_index < self.sequence@.len() ==> r == Some(&self.sequence@[step_index as int].instructions),
            step_index >= self.sequence@.len() ==> r is None,
    {
        if step_index < self.sequence.len() {
            Some(&self.sequence[step_index].instructions)
        } else {
            None
        }
    }

    /// The endpoint that step `step_index` of the deployment hands its
    /// result to, if the chain goes on after it.
    pub fn next_target_with_index(&self, step_index: usize) -> (r: Option<&Endpoint>)
        ensures
            step_index < self.sequence@.len() ==> r == match self.sequence@[step_index as int].instructions.to {
                Some(e) => Some(&e),
                None => None,
            },
            step_index >= self.sequence@.len() ==> r is None,
    {
        match self.step_link(step_index) {
            Some(link) => match &link.to {
                Some(e) => Some(e),
                None => None,
            },
            None => None,
        }
    }
}

/// A file to download for a module: its name, where it comes from and where
/// it is saved.
#[derive(Debug, Clone)]
pub struct FileDownload {
    pub file_name: String,
    pub url: String,
    pub path: String,
}

/// What has to be fetched and created for one module of a deployment.
#[derive(Debug, Clone)]
pub struct ModuleDownload {
    pub module_id: String,
    pub module_name: String,
    /// Where the module's binary comes from.
    pub binary_url: String,
    /// Where the module's binary is saved.
    pub binary_path: String,
    /// The directory of the module's mounted files.
    pub params_dir: String,
    /// The module's other files.
    pub files: Vec<FileDownload>,
}

/// Whether `files` are the downloads of the named files `other` of module
/// `module_id` of deployment `deployment_id`: each saved in the module's
/// parameter directory under its own name.
pub open spec fn file_downloads(
    files: Seq<FileDownload>,
    other: Seq<(String, String)>,
    instance: Seq<char>,
    deployment_id: Seq<char>,
    module_id: Seq<char>,
) -> bool {
    &&& files.len() == other.len()
    &&& forall|j: int|
        0 <= j < files.len() ==> {
            &&& (#[trigger] files[j]).file_name@ == other[j].0@
            &&& files[j].url@ == other[j].1@
            &&& files[j].path@ == spec_params_path(instance, deployment_id, module_id, Some(other[j].0@))
        }
}

/// Whether `d` is the download of the module `module_id`, first used by the
/// step `step`, of deployment `deployment_id`.
pub open spec fn is_module_download(
    d: ModuleDownload,
    instance: Seq<char>,
    deployment_id: Seq<char>,
    module_id: Seq<char>,
    step: Step,
) -> bool {
    &&& d.module_id@ == module_id
    &&& d.module_name@ == step.module.name@
    &&& d.binary_url@ == step.module.urls.binary@
    &&& d.binary_path@ == path_join(path_join(spec_module_folder(instance), deployment_id), module_id)
    &&& d.params_dir@ == spec_params_path(instance, deployment_id, module_id, None)
    &&& file_downloads(d.files@, step.module.urls.other.seq(), instance, deployment_id, module_id)
}

impl Deployment {
    /// The downloads for the modules of this device's steps, one per module,
    /// in the order in which the steps first use them.  Binaries are saved as
    /// `modules/{deployment}/{module id}`, other files below
    /// `params/{deployment}/{module id}`.
    pub fn module_downloads(&self, instance: &str) -> (r: Vec<ModuleDownload>)
        requires
            self.wf(),
        ensures
            r@.len() == self.modules.seq().len(),
            forall|j: int|
                0 <= j < r@.len() ==> is_module_download(
                    #[trigger] r@[j],
                    instance@,
                    self.id@,
                    self.modules.seq()[j].0@,
                    self.sequence@[self.modules.seq()[j].1 as int],
                ),
    {
        let entries = self.modules.entries();
        let mut r: Vec<ModuleDownload> = Vec::new();
        let mut j: usize = 0;
        while j < entries.len()
            invariant
                j <= entries@.len(),
                entries@ == self.modules.seq(),
                self.modules@ == entries_map(entries@),
                distinct_keys(entries@),
                self.wf(),
                r@.len() == j,
                forall|t: int|
                    0 <= t < j ==> is_module_download(
                        #[trigger] r@[t],
                        instance@,
                        self.id@,
                        entries@[t].0@,
                        self.sequence@[entries@[t].1 as int],
                    ),
            decreases entries@.len() - j,
        {
            let module_id = &entries[j].0;
            let pos = entries[j].1;
            proof {
                lemma_entries_map_at(entries@, j as int);
                lemma_first_module_uses_in_bounds(
                    self.sequence@,
                    self.device_id@,
                    self.my_steps@.len(),
                );
            }
            let module = &self.sequence[pos].module;
            let others = module.urls.other.entries();
            let mut files: Vec<FileDownload> = Vec::new();
            let mut t: usize = 0;
            while t < others.len()
                invariant
                    t <= others@.len(),
                    others@ == module.urls.other.seq(),
                    files@.len() == t,
                    forall|u: int|
                        0 <= u < t ==> {
                            &&& (#[trigger] files@[u]).file_name@ == others@[u].0@
                            &&& files@[u].url@ == others@[u].1@
                            &&& files@[u].path@ == spec_params_path(
                                instance@,
                                self.id@,
                                module_id@,
                                Some(others@[u].0@),
                            )
                        },
                decreases others@.len() - t,
            {
                let file_name = &others[t].0;
                let path = get_params_path(
                    instance,
                    self.id.as_str(),
                    module_id.as_str(),
                    Some(file_name.as_str()),
                );
                files.push(
                    FileDownload { file_name: file_name.clone(), url: others[t].1.clone(), path },
                );
                t = t + 1;
            }
            let d = ModuleDownload {
                module_id: module_id.clone(),
                module_name: module.name.clone(),
                binary_url: module.urls.binary.clone(),
                binary_path: get_module_path(instance, self.id.as_str(), module_id.as_str()),
                params_dir: get_params_path(instance, self.id.as_str(), module_id.as_str(), None),
                files,
            };
            r.push(d);
            j = j + 1;
        }
        r
    }
}

/// Every module id of a deployment maps to a position of one of its steps.
pub proof fn lemma_first_module_uses_in_bounds(seq: Seq<Step>, device_id: Seq<char>, n: nat)
    requires
        n <= steps_on_device(seq, device_id).len(),
    ensures
        forall|k: Seq<char>|
            #[trigger] first_module_uses(seq, steps_on_device(seq, device_id), n).contains_key(k)
                ==> first_module_uses(seq, steps_on_device(seq, device_id), n)[k] < seq.len(),
    decreases n,
{
    lemma_steps_on_device_bounded(seq, device_id, seq.len());
    if n > 0 {
        lemma_first_module_uses_in_bounds(seq, device_id, (n - 1) as nat);
        let mine = steps_on_device_upto(seq, device_id, seq.len());
        assert(mine[n - 1] < seq.len());
        let before = first_module_uses(seq, mine, (n - 1) as nat);
        let now = first_module_uses(seq, mine, n);
        assert forall|k: Seq<char>| #[trigger] now.contains_key(k) implies now[k] < seq.len() by {
            if before.contains_key(k) {
                assert(before[k] < seq.len());
            }
        }
    }
}

/// The configuration of a downloaded module: its id, name and binary, the
/// data files that were saved for it, and the default model file.
pub fn module_config(download: &ModuleDownload, data_files: StrMap<String>) -> (r: ModuleConfig)
    ensures
        r.id@ == download.module_id@,
        r.name@ == download.module_name@,
        r.path@ == download.binary_path@,
        r.data_files == data_files,
        r.ml_model matches Some(m) && m.path@ == "model.pb"@ && m.alloc_function_name@ == "alloc"@
            && m.infer_function_name@ == "infer_from_ptrs"@,
        r.data_ptr_function_name@ == "get_image_ptr"@,
{
    let mut config = ModuleConfig::new(
        download.module_id.clone(),
        download.module_name.clone(),
        download.binary_path.clone(),
        data_files,
        None,
    );
    config.set_model_from_data_files(None);
    config
}

/// What is removed from disk with a deployment: its saved JSON document and
/// its module and parameter directories.
#[derive(Debug, Clone)]
pub struct DeletionTargets {
    pub json_path: String,
    pub module_dir: String,
    pub params_dir: String,
}

/// The files and directories of deployment `deployment_id`.
pub fn deletion_targets(instance: &str, deployment_id: &str) -> (r: DeletionTargets)
    ensures
        r.json_path@ == path_join(spec_deployments_folder(instance@), deployment_id@ + ".json"@),
        r.module_dir@ == path_join(spec_module_folder(instance@), deployment_id@),
        r.params_dir@ == path_join(spec_params_folder(instance@), deployment_id@),
{
    let module_root = module_folder(instance);
    let params_root = params_folder(instance);
    DeletionTargets {
        json_path: get_deployment_path(instance, deployment_id),
        module_dir: join_path(&module_root, deployment_id),
        params_dir: join_path(&params_root, deployment_id),
    }
}

/// The message that confirms the deletion of a deployment.
pub fn deleted_message(deployment_id: &str) -> (r: String)
    ensures
        r@ == "Deployment '"@ + deployment_id@ + "' and all associated files deleted"@,
{
    let mut m = "Deployment '".to_string();
    m.append(deployment_id);
    m.append("' and all associated files deleted");
    m
}

/// Adds a created deployment to the deployments held in memory, replacing
/// one with the same id.
pub fn deployment_register(registry: &mut StrMap<Deployment>, deployment: Deployment)
    ensures
        final(registry)@ == old(registry)@.insert(deployment.id@, deployment),
{
    let id = deployment.id.clone();
    registry.insert(id, deployment);
}

/// Removes the deployment `deployment_id` from the deployments held in
/// memory; tells whether there was one.
pub fn deployment_delete(registry: &mut StrMap<Deployment>, deployment_id: &str) -> (r: bool)
    ensures
        r == old(registry)@.contains_key(deployment_id@),
        final(registry)@ == old(registry)@.remove(deployment_id@),
{
    match registry.index_of(deployment_id) {
        Some(i) => {
            let _ = registry.remove_at(i);
            true
        },
        None => {
            proof {
                assert(registry@.remove(deployment_id@) =~= registry@);
            }
            false
        },
    }
}

/// Deleting a deployment right after registering it leaves the other
/// deployments as they were, and a second deletion finds nothing.
pub proof fn law_delete_undoes_register(
    registry: Map<Seq<char>, Deployment>,
    deployment: Deployment,
)
    ensures
        registry.insert(deployment.id@, deployment).remove(deployment.id@) == registry.remove(
            deployment.id@,
        ),
        !registry.insert(deployment.id@, deployment).remove(deployment.id@).contains_key(
            deployment.id@,
        ),
{
    assert(registry.insert(deployment.id@, deployment).remove(deployment.id@) =~= registry.remove(
        deployment.id@,
    ));
}

/// The positions of a device's steps, below `n`, in increasing order: each
/// is the position of a step on the device, and every such position is one
/// of them.
pub proof fn lemma_steps_on_device_exact(seq: Seq<Step>, device_id: Seq<char>, n: nat)
    requires
        n <= seq.len(),
        seq.len() <= usize::MAX,
    ensures
        forall|j: int|
            0 <= j < steps_on_device_upto(seq, device_id, n).len() ==> {
                let p = #[trigger] steps_on_device_upto(seq, device_id, n)[j];
                p < n && seq[p as int].device_id@ == device_id
            },
        forall|j: int, k: int|
            0 <= j < k < steps_on_device_upto(seq, device_id, n).len() ==> #[trigger] steps_on_device_upto(
                seq,
                device_id,
                n,
            )[j] < #[trigger] steps_on_device_upto(seq, device_id, n)[k],
        forall|i: int|
            0 <= i < n && #[trigger] seq[i].device_id@ == device_id ==> exists|j: int|
                0 <= j < steps_on_device_upto(seq, device_id, n).len() && #[trigger] steps_on_device_upto(
                    seq,
                    device_id,
                    n,
                )[j] == i,
    decreases n,
{
    if n > 0 {
        lemma_steps_on_device_exact(seq, device_id, (n - 1) as nat);
        let before = steps_on_device_upto(seq, device_id, (n - 1) as nat);
        let now = steps_on_device_upto(seq, device_id, n);
        assert forall|j: int| 0 <= j < before.len() implies now[j] == before[j] by {}
        assert forall|i: int| 0 <= i < n && #[trigger] seq[i].device_id@ == device_id implies exists|j: int|
            0 <= j < now.len() && #[trigger] now[j] == i by {
            if i < n - 1 {
                let j = choose|j: int| 0 <= j < before.len() && #[trigger] before[j] == i;
                assert(now[j] == i);
            } else {
                assert(now[before.len() as int] == i);
            }
        }
    }
}

/// Planning keeps exactly the steps that run on the device, in their order:
/// each planned position holds a step of the device, positions increase,
/// and no step of the device is left out.
pub proof fn law_plan_keeps_exactly_the_devices_steps(seq: Seq<Step>, device_id: Seq<char>)
    requires
        seq.len() <= usize::MAX,
    ensures
        forall|j: int|
            0 <= j < steps_on_device(seq, device_id).len() ==> {
                let p = #[trigger] steps_on_device(seq, device_id)[j];
                p < seq.len() && seq[p as int].device_id@ == device_id
            },
        forall|j: int, k: int|
            0 <= j < k < steps_on_device(seq, device_id).len() ==> #[trigger] steps_on_device(
                seq,
                device_id,
            )[j] < #[trigger] steps_on_device(seq, device_id)[k],
        forall|i: int|
            0 <= i < seq.len() && #[trigger] seq[i].device_id@ == device_id ==> exists|j: int|
                0 <= j < steps_on_device(seq, device_id).len() && #[trigger] steps_on_device(
                    seq,
                    device_id,
                )[j] == i,
{
    lemma_steps_on_device_exact(seq, device_id, seq.len());
}

/// The steps found for a function, among the first `n` of the positions
/// `mine`, are those of them that run the function, in order.
pub proof fn lemma_function_steps_exact(
    seq: Seq<Step>,
    mine: Seq<usize>,
    module_name: Seq<char>,
    function_name: Seq<char>,
    n: nat,
)
    requires
        n <= mine.len(),
    ensures
        forall|j: int|
            0 <= j < function_steps_upto(seq, mine, module_name, function_name, n).len() ==> {
                let p = #[trigger] function_steps_upto(seq, mine, module_name, function_name, n)[j];
                runs_function(seq[p as int], module_name, function_name) && exists|k: int|
                    0 <= k < n && mine[k] == p
            },
        forall|k: int|
            0 <= k < n && #[trigger] runs_function(seq[mine[k] as int], module_name, function_name)
                ==> exists|j: int|
                0 <= j < function_steps_upto(seq, mine, module_name, function_name, n).len()
                    && #[trigger] function_steps_upto(seq, mine, module_name, function_name, n)[j]
                    == mine[k],
    decreases n,
{
    if n > 0 {
        lemma_function_steps_exact(seq, mine, module_name, function_name, (n - 1) as nat);
        let before = function_steps_upto(seq, mine, module_name, function_name, (n - 1) as nat);
        let now = function_steps_upto(seq, mine, module_name, function_name, n);
        assert forall|j: int| 0 <= j < before.len() implies now[j] == before[j] by {}
        assert forall|j: int| 0 <= j < now.len() implies {
            let p = #[trigger] now[j];
            runs_function(seq[p as int], module_name, function_name) && exists|k: int|
                0 <= k < n && mine[k] == p
        } by {
            if j < before.len() {
                let k = choose|k: int| 0 <= k < n - 1 && mine[k] == before[j];
                assert(mine[k] == now[j]);
            } else {
                assert(mine[n - 1] == now[j]);
            }
        }
        assert forall|k: int|
            0 <= k < n && #[trigger] runs_function(seq[mine[k] as int], module_name, function_name)
                implies exists|j: int| 0 <= j < now.len() && #[trigger] now[j] == mine[k] by {
            if k < n - 1 {
                let j = choose|j: int| 0 <= j < before.len() && #[trigger] before[j] == mine[k];
                assert(now[j] == mine[k]);
            } else {
                assert(now[before.len() as int] == mine[k]);
            }
        }
    }
}

/// Of positions in increasing order, those whose steps run a function are
/// in increasing order too.
proof fn lemma_function_steps_increasing(
    seq: Seq<Step>,
    mine: Seq<usize>,
    module_name: Seq<char>,
    function_name: Seq<char>,
    n: nat,
)
    requires
        n <= mine.len(),
        forall|j: int, k: int| 0 <= j < k < mine.len() ==> #[trigger] mine[j] < #[trigger] mine[k],
    ensures
        forall|j: int, k: int|
            0 <= j < k < function_steps_upto(seq, mine, module_name, function_name, n).len()
                ==> #[trigger] function_steps_upto(seq, mine, module_name, function_name, n)[j]
                < #[trigger] function_steps_upto(seq, mine, module_name, function_name, n)[k],
    decreases n,
{
    if n > 0 {
        lemma_function_steps_increasing(seq, mine, module_name, function_name, (n - 1) as nat);
        lemma_function_steps_exact(seq, mine, module_name, function_name, (n - 1) as nat);
        let before = function_steps_upto(seq, mine, module_name, function_name, (n - 1) as nat);
        let now = function_steps_upto(seq, mine, module_name, function_name, n);
        assert forall|j: int, k: int| 0 <= j < k < now.len() implies #[trigger] now[j] < #[trigger] now[k] by {
            if k < before.len() {
                assert(now[j] == before[j] && now[k] == before[k]);
            } else {
                assert(now[j] == before[j]);
                let t = choose|t: int| 0 <= t < n - 1 && mine[t] == before[j];
                assert(mine[t] < mine[n - 1]);
            }
        }
    }
}

/// A function's endpoint, chain links and mounts come from exactly the
/// device's steps that run the function: each such step is one of the
/// device's steps and runs the function, and none of them is left out.
pub proof fn law_function_steps_are_the_devices_steps_running_it(
    d: Deployment,
    module_name: Seq<char>,
    function_name: Seq<char>,
)
    requires
        d.wf(),
        d.sequence@.len() <= usize::MAX,
    ensures
        forall|j: int|
            0 <= j < d.spec_function_steps(module_name, function_name).len() ==> {
                let p = #[trigger] d.spec_function_steps(module_name, function_name)[j];
                &&& 0 <= p < d.sequence@.len()
                &&& d.sequence@[p as int].module.name@ == module_name
                &&& d.sequence@[p as int].function_name@ == function_name
                &&& d.sequence@[p as int].device_id@ == d.device_id@
            },
        forall|i: int|
            0 <= i < d.sequence@.len() && d.sequence@[i].device_id@ == d.device_id@
                && #[trigger] d.sequence@[i].module.name@ == module_name && d.sequence@[i].function_name@
                == function_name ==> exists|j: int|
                0 <= j < d.spec_function_steps(module_name, function_name).len() && #[trigger] d.spec_function_steps(
                    module_name,
                    function_name,
                )[j] == i,
        forall|j: int, k: int|
            0 <= j < k < d.spec_function_steps(module_name, function_name).len() ==> #[trigger] d.spec_function_steps(
                module_name,
                function_name,
            )[j] < #[trigger] d.spec_function_steps(module_name, function_name)[k],
{
    let mine = d.my_steps@;
    lemma_steps_on_device_exact(d.sequence@, d.device_id@, d.sequence@.len());
    lemma_function_steps_exact(d.sequence@, mine, module_name, function_name, mine.len());
    lemma_function_steps_increasing(d.sequence@, mine, module_name, function_name, mine.len());
    let fs = d.spec_function_steps(module_name, function_name);
    assert forall|j: int| 0 <= j < fs.len() implies {
        let p = #[trigger] fs[j];
        runs_function(d.sequence@[p as int], module_name, function_name) && d.sequence@[p as int].device_id@
            == d.device_id@
    } by {
        let k = choose|k: int| 0 <= k < mine.len() && mine[k] == fs[j];
        assert(mine[k] == steps_on_device_upto(d.sequence@, d.device_id@, d.sequence@.len())[k]);
    }
    assert forall|i: int|
        0 <= i < d.sequence@.len() && d.sequence@[i].device_id@ == d.device_id@
            && #[trigger] d.sequence@[i].module.name@ == module_name && d.sequence@[i].function_name@
            == function_name implies exists|j: int| 0 <= j < fs.len() && #[trigger] fs[j] == i by {
        let k = choose|k: int|
            0 <= k < steps_on_device_upto(d.sequence@, d.device_id@, d.sequence@.len()).len()
                && #[trigger] steps_on_device_upto(d.sequence@, d.device_id@, d.sequence@.len())[k] == i;
        assert(mine[k] == i);
        assert(runs_function(d.sequence@[mine[k] as int], module_name, function_name));
    }
}

/// Every mount collected for a stage is tagged with that stage.
pub proof fn law_collected_mounts_carry_their_stage(seq: Seq<Step>, idx: Seq<usize>, stage: MountStage)
    ensures
        forall|j: int|
            0 <= j < collected_mounts(seq, idx, stage).len() ==> (#[trigger] collected_mounts(
                seq,
                idx,
                stage,
            )[j]).2 == Some(stage),
    decreases idx.len(),
{
    if idx.len() > 0 {
        law_collected_mounts_carry_their_stage(seq, idx.drop_last(), stage);
        let a = collected_mounts(seq, idx.drop_last(), stage);
        let b = staged(stage_list(seq[idx.last() as int].mounts, stage), stage);
        assert forall|j: int| 0 <= j < (a + b).len() implies (#[trigger] (a + b)[j]).2 == Some(stage) by {
            if j >= a.len() {
                assert((a + b)[j] == b[j - a.len()]);
            }
        }
    }
}

} // verus!
