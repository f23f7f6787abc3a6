//! Redeeming an invite: the request that is sent to the enrollment service, the
//! answer that is accepted, and what is written where once the answer has been
//! opened as an archive. Sending, receiving and writing are the caller's part.

use crate::archive::{read_archive, slots_view, zip_listing, Slot, SlotView};
use crate::errors::ProvisionError;
use vstd::prelude::*;

verus! {

/// The seconds after which the request to the enrollment service is given up.
pub const REDEEM_TIMEOUT_SECS: u64 = 30;

/// The address of the request that redeems `invite_code` at `peer_address`.
pub open spec fn redeem_url_of(peer_address: Seq<char>, invite_code: Seq<char>) -> Seq<char> {
    "http://"@ + peer_address + "/client/api/redeem_invite?invite_code="@ + invite_code
}

/// The address of the request that redeems `invite_code` at `peer_address`.
pub fn redeem_url(peer_address: &str, invite_code: &str) -> (url: String)
    ensures
        url@ == redeem_url_of(peer_address@, invite_code@),
{
    let mut url = String::from_str("http://");
    url.append(peer_address);
    url.append("/client/api/redeem_invite?invite_code=");
    url.append(invite_code);
    url
}

/// The status of an answer is in the success class.
pub open spec fn is_success(status: u16) -> bool {
    200 <= status < 300
}

/// Accepts the answer of the enrollment service by its status: any status
/// outside the success class is rejected, and carried in the error.
pub fn check_redeem_status(status: u16) -> (r: Result<(), ProvisionError>)
    ensures
        is_success(status) ==> r is Ok,
        !is_success(status) ==> r == Err::<(), ProvisionError>(
            ProvisionError::RedeemRejected(status),
        ),
{
    if 200 <= status && status < 300 {
        Ok(())
    } else {
        Err(ProvisionError::RedeemRejected(status))
    }
}

/// One thing to do in the application's private directory. `index` is the
/// position of the entry in the archive, `path` is relative to that directory.
#[derive(Debug)]
pub enum ExtractStep {
    /// Create the directory at `path`, and those above it.
    CreateDir { index: usize, path: String },
    /// Create the directories above `path`, then write `content` to the file at
    /// `path`, in place of whatever is there.
    WriteFile { index: usize, path: String, content: Vec<u8> },
}

/// An `ExtractStep` as plain values.
pub enum StepView {
    CreateDir { index: int, path: Seq<char> },
    WriteFile { index: int, path: Seq<char>, content: Seq<u8> },
}

impl View for ExtractStep {
    type V = StepView;

    open spec fn view(&self) -> StepView {
        match self {
            ExtractStep::CreateDir { index, path } => StepView::CreateDir {
                index: *index as int,
                path: path@,
            },
            ExtractStep::WriteFile { index, path, content } => StepView::WriteFile {
                index: *index as int,
                path: path@,
                content: content@,
            },
        }
    }
}

impl ExtractStep {
    /// The position in the archive of the entry that this step is for.
    pub fn index(&self) -> (i: usize)
        ensures
            i == self@.entry_index(),
    {
        match self {
            ExtractStep::CreateDir { index, .. } => *index,
            ExtractStep::WriteFile { index, .. } => *index,
        }
    }
}

impl StepView {
    /// The position of the entry that this step is for.
    pub open spec fn entry_index(self) -> int {
        match self {
            StepView::CreateDir { index, .. } => index,
            StepView::WriteFile { index, .. } => index,
        }
    }

    /// Where this step works, relative to the application's directory.
    pub open spec fn target(self) -> Seq<char> {
        match self {
            StepView::CreateDir { path, .. } => path,
            StepView::WriteFile { path, .. } => path,
        }
    }
}

/// What is to be done with an archive: the steps in their order and, if the
/// archive fails at some entry, the position of that entry. The steps before the
/// failure are still to be done; nothing is undone.
#[derive(Debug)]
pub struct ExtractionPlan {
    pub steps: Vec<ExtractStep>,
    pub failed_at: Option<usize>,
}

/// An `ExtractionPlan` as plain values.
pub struct PlanView {
    pub steps: Seq<StepView>,
    pub failed_at: Option<int>,
}

impl View for ExtractionPlan {
    type V = PlanView;

    open spec fn view(&self) -> PlanView {
        PlanView {
            steps: self.steps@.map_values(|step: ExtractStep| step@),
            failed_at: match self.failed_at {
                Some(i) => Some(i as int),
                None => None,
            },
        }
    }
}

/// The name denotes a directory: it ends with `/`.
pub open spec fn names_directory(name: Seq<char>) -> bool {
    name.len() > 0 && name.last() == '/'
}

/// What one position of an archive adds to the plan.
pub enum SlotPlan {
    /// Nothing: the entry has no safe path.
    Skip,
    /// One step.
    Step(StepView),
    /// The extraction fails here.
    Fail,
}

/// What the position `index` adds, given what it holds. An entry that cannot be
/// had fails. An entry without a safe path is passed over, directory or not. A
/// name that ends with `/` asks for a directory; any other entry is written,
/// and fails if its content cannot be read.
pub open spec fn slot_plan(index: int, slot: SlotView) -> SlotPlan {
    match slot {
        SlotView::Locked => SlotPlan::Fail,
        SlotView::Unreadable => SlotPlan::Fail,
        SlotView::File(entry) => match entry.enclosed {
            None => SlotPlan::Skip,
            Some(path) => if names_directory(entry.name) {
                SlotPlan::Step(StepView::CreateDir { index, path })
            } else {
                match entry.content {
                    Some(content) => SlotPlan::Step(StepView::WriteFile { index, path, content }),
                    None => SlotPlan::Fail,
                }
            },
        },
    }
}

/// The plan for the first `k` positions: each adds its part, in order, up to
/// the first that fails.
pub open spec fn plan_upto(slots: Seq<SlotView>, k: int) -> PlanView
    decreases k,
{
    if k <= 0 {
        PlanView { steps: Seq::empty(), failed_at: None }
    } else {
        let before = plan_upto(slots, k - 1);
        if before.failed_at is Some {
            before
        } else {
            match slot_plan(k - 1, slots[k - 1]) {
                SlotPlan::Skip => before,
                SlotPlan::Step(step) => PlanView {
                    steps: before.steps.push(step),
                    failed_at: None,
                },
                SlotPlan::Fail => PlanView { steps: before.steps, failed_at: Some(k - 1) },
            }
        }
    }
}

/// The plan for a whole archive.
pub open spec fn plan_of(slots: Seq<SlotView>) -> PlanView {
    plan_upto(slots, slots.len() as int)
}

fn ends_with_slash(name: &str) -> (b: bool)
    ensures
        b == names_directory(name@),
{
    let n = name.unicode_len();
    n > 0 && name.get_char(n - 1) == '/'
}

/// Plans the extraction of the entries in `slots`, in their order.
pub fn plan_extraction(slots: &Vec<Slot>) -> (plan: ExtractionPlan)
    ensures
        plan@ == plan_of(slots_view(slots@)),
{
    let ghost listing = slots_view(slots@);
    let mut steps: Vec<ExtractStep> = Vec::new();
    let mut failed_at: Option<usize> = None;
    let mut i: usize = 0;
    while i < slots.len() && failed_at.is_none()
        invariant
            i <= slots.len(),
            listing == slots_view(slots@),
            steps@.map_values(|step: ExtractStep| step@) =~= plan_upto(listing, i as int).steps,
            match failed_at {
                Some(at) => plan_upto(listing, i as int).failed_at == Some(at as int),
                None => plan_upto(listing, i as int).failed_at is None,
            },
        decreases slots.len() - i,
    {
        match &slots[i] {
            Slot::Locked => {
                failed_at = Some(i);
            },
            Slot::Unreadable => {
                failed_at = Some(i);
            },
            Slot::File(entry) => match &entry.enclosed {
                None => {},
                Some(path) => {
                    if ends_with_slash(entry.name.as_str()) {
                        steps.push(ExtractStep::CreateDir { index: i, path: path.clone() });
                    } else {
                        match &entry.content {
                            Some(content) => {
                                steps.push(
                                    ExtractStep::WriteFile {
                                        index: i,
                                        path: path.clone(),
                                        content: content.clone(),
                                    },
                                );
                            },
                            None => {
                                failed_at = Some(i);
                            },
                        }
                    }
                },
            },
        }
        i += 1;
    }
    proof {
        lemma_plan_stays_failed(listing, i as int, slots.len() as int);
    }
    ExtractionPlan { steps, failed_at }
}

/// Once the plan has failed, later positions add nothing to it.
pub proof fn lemma_plan_stays_failed(slots: Seq<SlotView>, k: int, n: int)
    requires
        0 <= k <= n,
        plan_upto(slots, k).failed_at is Some || k == n,
    ensures
        plan_upto(slots, n) == plan_upto(slots, k),
    decreases n - k,
{
    if k < n {
        lemma_plan_stays_failed(slots, k, n - 1);
    }
}

impl ExtractionPlan {
    /// How the redemption ends once every step has been carried out.
    pub fn outcome(&self) -> (r: Result<(), ProvisionError>)
        ensures
            match self.failed_at {
                Some(i) => r == Err::<(), ProvisionError>(ProvisionError::ExtractionFailure(i)),
                None => r is Ok,
            },
    {
        match self.failed_at {
            Some(i) => Err(ProvisionError::ExtractionFailure(i)),
            None => Ok(()),
        }
    }
}

/// Opens the answer of the enrollment service as an archive and plans its
/// extraction. `overwrite` says that the caller has asked the user about
/// replacing files that exist; the plan replaces them whatever it says.
pub fn extraction_plan(bytes: Vec<u8>, overwrite: bool) -> (r: Result<
    ExtractionPlan,
    ProvisionError,
>)
    ensures
        match zip_listing(bytes@) {
            Some(listing) => r matches Ok(plan) && plan@ == plan_of(listing),
            None => r matches Err(e) && e == ProvisionError::MalformedArchive,
        },
{
    match read_archive(bytes) {
        Ok(slots) => Ok(plan_extraction(&slots)),
        Err(e) => Err(e),
    }
}

/// The entry at a position is a file with a safe path and content that can be
/// read.
pub open spec fn is_plain_file(slot: SlotView) -> bool {
    slot matches SlotView::File(entry) && entry.enclosed is Some && entry.content is Some
        && !names_directory(entry.name)
}

/// The step that writes a plain file.
pub open spec fn write_of(index: int, slot: SlotView) -> StepView {
    StepView::WriteFile {
        index,
        path: slot->File_0.enclosed->0,
        content: slot->File_0.content->0,
    }
}

proof fn lemma_plain_files_upto(slots: Seq<SlotView>, k: int)
    requires
        0 <= k <= slots.len(),
        forall|j: int| 0 <= j < k ==> is_plain_file(#[trigger] slots[j]),
    ensures
        plan_upto(slots, k).failed_at is None,
        plan_upto(slots, k).steps.len() == k,
        forall|j: int|
            0 <= j < k ==> #[trigger] plan_upto(slots, k).steps[j] == write_of(j, slots[j]),
    decreases k,
{
    if k > 0 {
        lemma_plain_files_upto(slots, k - 1);
    }
}

/// An archive of plain files is extracted whole: the plan does not fail, and it
/// writes every entry, in the archive's order, to the entry's own path with the
/// entry's own bytes.
pub proof fn law_plain_files_are_all_written(slots: Seq<SlotView>)
    requires
        forall|j: int| 0 <= j < slots.len() ==> is_plain_file(#[trigger] slots[j]),
    ensures
        plan_of(slots).failed_at is None,
        plan_of(slots).steps.len() == slots.len(),
        forall|j: int|
            0 <= j < slots.len() ==> #[trigger] plan_of(slots).steps[j] == write_of(j, slots[j]),
{
    lemma_plain_files_upto(slots, slots.len() as int);
}

/// An entry without a safe path adds nothing to the plan and does not stop it:
/// the plan after this entry is the plan before it, and the next entry is
/// planned as if this one were not there.
pub proof fn law_unenclosed_entry_is_skipped(slots: Seq<SlotView>, k: int)
    requires
        0 <= k < slots.len(),
        slots[k] matches SlotView::File(entry) && entry.enclosed is None,
    ensures
        slot_plan(k, slots[k]) == SlotPlan::Skip,
        plan_upto(slots, k + 1) == plan_upto(slots, k),
{
}

proof fn lemma_steps_stay_enclosed_upto(slots: Seq<SlotView>, k: int)
    requires
        0 <= k <= slots.len(),
    ensures
        forall|j: int|
            0 <= j < plan_upto(slots, k).steps.len() ==> {
                let step = #[trigger] plan_upto(slots, k).steps[j];
                &&& 0 <= step.entry_index() < k
                &&& slots[step.entry_index()] matches SlotView::File(entry)
                &&& entry.enclosed == Some(step.target())
            },
    decreases k,
{
    if k > 0 {
        lemma_steps_stay_enclosed_upto(slots, k - 1);
        let before = plan_upto(slots, k - 1);
        let now = plan_upto(slots, k);
        assert forall|j: int| 0 <= j < now.steps.len() implies {
            let step = #[trigger] now.steps[j];
            &&& 0 <= step.entry_index() < k
            &&& slots[step.entry_index()] matches SlotView::File(entry)
            &&& entry.enclosed == Some(step.target())
        } by {
            if j < before.steps.len() {
            }
        }
    }
}

/// Every step of a plan is for an entry of the archive that has a safe path, and
/// works at that path and nowhere else.
pub proof fn law_steps_stay_enclosed(slots: Seq<SlotView>)
    ensures
        forall|j: int|
            0 <= j < plan_of(slots).steps.len() ==> {
                let step = #[trigger] plan_of(slots).steps[j];
                &&& 0 <= step.entry_index() < slots.len()
                &&& slots[step.entry_index()] matches SlotView::File(entry)
                &&& entry.enclosed == Some(step.target())
            },
{
    lemma_steps_stay_enclosed_upto(slots, slots.len() as int);
}

} // verus!
