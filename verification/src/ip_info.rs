//! The enrichment run: which lookups are made for a list of participants, and
//! what becomes of the run as the lookups complete.

use crate::batch::{batch_count, batches_of, split_batches};
use crate::ip_data::{IpDataView, ValidatorIpData};
use crate::ip_data_map::IpDataMap;
use crate::lookup::{lookup_url, lookup_url_of, LookupError};
use crate::reconcile::{
    reconcile, reconciled, skipped, unresolved_participants, Unresolved, UnresolvedView,
};
use crate::validator::{ValidatorInfo, ValidatorView};
use vstd::prelude::*;

verus! {

/// The batch size that the provider's address-list endpoint is used with.
pub const BATCH_SIZE: u32 = 100;

/// One lookup call that is to be made: where it goes, and the participants it
/// is made for.
#[derive(Debug, PartialEq, Eq)]
pub struct LookupRequest {
    /// The address of the request.
    pub url: String,
    /// The participants whose addresses the request looks up.
    pub batch: Vec<ValidatorInfo>,
}

/// The mathematical content of a [`LookupRequest`].
pub struct LookupRequestView {
    pub url: Seq<char>,
    pub batch: Seq<ValidatorView>,
}

impl View for LookupRequest {
    type V = LookupRequestView;

    open spec fn view(&self) -> LookupRequestView {
        LookupRequestView { url: self.url@, batch: self.batch.deep_view() }
    }
}

impl DeepView for LookupRequest {
    type V = LookupRequestView;

    open spec fn deep_view(&self) -> LookupRequestView {
        self@
    }
}

/// The request for one batch under the credential `api_key`.
pub open spec fn request_of(api_key: Seq<char>, batch: Seq<ValidatorView>) -> LookupRequestView {
    LookupRequestView { url: lookup_url_of(api_key, batch), batch }
}

/// The requests of a run: one for each batch, in the order of the batches.
pub open spec fn requests_of(api_key: Seq<char>, batches: Seq<Seq<ValidatorView>>) -> Seq<
    LookupRequestView,
> {
    Seq::new(batches.len(), |i: int| request_of(api_key, batches[i]))
}

/// The share of the whole run, in percent, that one batch stands for when the
/// run has `total` batches.
pub open spec fn percent_of_batch(total: nat) -> int {
    if total == 0 {
        0
    } else {
        100int / (total as int)
    }
}

/// The steps of a run never add up to more than the hundred percent, and
/// fall short of them by less than one percent for each batch.
pub proof fn lemma_progress_within_hundred(total: nat)
    requires
        total > 0,
    ensures
        0 <= percent_of_batch(total) <= 100,
        100 - total < total * percent_of_batch(total) <= 100,
{
    let batches = total as int;
    assert(0 <= 100int / batches <= 100 && 100 - batches < batches * (100int / batches) <= 100)
        by (nonlinear_arith)
        requires
            batches > 0,
    ;
}

/// A run that still waits for lookups to complete.
#[derive(Debug)]
pub struct Enrichment {
    total: usize,
    completed: usize,
    records: Vec<ValidatorIpData>,
}

/// The mathematical content of an [`Enrichment`].
pub struct EnrichmentView {
    /// Number of batches of the run.
    pub total: nat,
    /// Number of batches whose lookup has completed.
    pub completed: nat,
    /// The records of the completed batches, in the order of completion.
    pub records: Seq<IpDataView>,
}

/// Where a run stands.
#[derive(Debug)]
pub enum Step {
    /// Lookups are still outstanding.
    Pending(Enrichment),
    /// Every lookup has completed; these are the records of the run.
    Finished(Vec<ValidatorIpData>),
    /// A lookup failed, and the run with it. No record of the run is kept.
    Failed(LookupError),
}

/// The mathematical content of a [`Step`].
pub enum StepView {
    Pending(EnrichmentView),
    Finished(Seq<IpDataView>),
    Failed(LookupError),
}

impl View for Enrichment {
    type V = EnrichmentView;

    closed spec fn view(&self) -> EnrichmentView {
        EnrichmentView {
            total: self.total as nat,
            completed: self.completed as nat,
            records: self.records.deep_view(),
        }
    }
}

impl View for Step {
    type V = StepView;

    open spec fn view(&self) -> StepView {
        match self {
            Step::Pending(run) => StepView::Pending(run@),
            Step::Finished(records) => StepView::Finished(records.deep_view()),
            Step::Failed(error) => StepView::Failed(*error),
        }
    }
}

/// Where a run with `total` batches stands before any lookup has completed:
/// it is finished at once, without a record, if there is no batch.
pub open spec fn started(total: nat) -> StepView {
    if total == 0 {
        StepView::Finished(Seq::empty())
    } else {
        StepView::Pending(EnrichmentView { total, completed: 0, records: Seq::empty() })
    }
}

/// What a lookup gave, with the mapping as a plain value.
pub open spec fn outcome_view(outcome: Result<IpDataMap, LookupError>) -> Result<
    Map<Seq<char>, IpDataView>,
    LookupError,
> {
    match outcome {
        Ok(mapping) => Ok(mapping@),
        Err(error) => Err(error),
    }
}

/// Where the run stands after the lookup for `batch` has completed with
/// `outcome`. A failed lookup fails the run. A mapping is reconciled with the
/// batch and the records are added behind those the run already has; the run
/// is finished when this was its last batch.
pub open spec fn after_completion(
    run: EnrichmentView,
    batch: Seq<ValidatorView>,
    outcome: Result<Map<Seq<char>, IpDataView>, LookupError>,
) -> StepView {
    match outcome {
        Err(error) => StepView::Failed(error),
        Ok(mapping) => {
            let records = run.records + reconciled(batch, mapping);
            if run.completed + 1 >= run.total {
                StepView::Finished(records)
            } else {
                StepView::Pending(
                    EnrichmentView { total: run.total, completed: run.completed + 1, records },
                )
            }
        },
    }
}

/// The participants of `batch` that get no record when its lookup completes
/// with `outcome`, each with the reason. A failed lookup names nobody: it
/// fails the run as a whole.
pub open spec fn left_out_at(
    batch: Seq<ValidatorView>,
    outcome: Result<Map<Seq<char>, IpDataView>, LookupError>,
) -> Seq<UnresolvedView> {
    match outcome {
        Ok(mapping) => skipped(batch, mapping),
        Err(_) => Seq::empty(),
    }
}

/// One completed lookup: the batch it was made for, and what it gave.
pub struct CompletionView {
    pub batch: Seq<ValidatorView>,
    pub outcome: Result<Map<Seq<char>, IpDataView>, LookupError>,
}

/// Where a run stands after the given completions were taken in, one after
/// the other. Once the run is finished or has failed, nothing more is taken
/// in.
pub open spec fn after_completions(step: StepView, completions: Seq<CompletionView>) -> StepView
    decreases completions.len(),
{
    if completions.len() == 0 {
        step
    } else {
        match after_completions(step, completions.drop_last()) {
            StepView::Pending(run) => after_completion(
                run,
                completions.last().batch,
                completions.last().outcome,
            ),
            ended => ended,
        }
    }
}

/// The records that the completions give, batch after batch in the order of
/// the completions; a failed lookup gives none.
pub open spec fn collected(completions: Seq<CompletionView>) -> Seq<IpDataView>
    decreases completions.len(),
{
    if completions.len() == 0 {
        Seq::empty()
    } else {
        collected(completions.drop_last()) + match completions.last().outcome {
            Ok(mapping) => reconciled(completions.last().batch, mapping),
            Err(_) => Seq::empty(),
        }
    }
}

/// While lookups succeed and batches are outstanding, the run waits with the
/// records collected so far; with the success of the last batch it is
/// finished.
pub proof fn lemma_run_collects(total: nat, completions: Seq<CompletionView>)
    requires
        0 < total,
        completions.len() <= total,
        forall|i: int| 0 <= i < completions.len() ==> (#[trigger] completions[i]).outcome is Ok,
    ensures
        after_completions(started(total), completions) == if completions.len() < total {
            StepView::Pending(
                EnrichmentView {
                    total,
                    completed: completions.len(),
                    records: collected(completions),
                },
            )
        } else {
            StepView::Finished(collected(completions))
        },
    decreases completions.len(),
{
    if completions.len() > 0 {
        lemma_run_collects(total, completions.drop_last());
    }
}

/// A run whose lookups all succeed finishes with the records of all its
/// batches, in the order in which the lookups completed.
pub proof fn lemma_run_finishes_with_all_records(total: nat, completions: Seq<CompletionView>)
    requires
        0 < total,
        completions.len() == total,
        forall|i: int| 0 <= i < completions.len() ==> (#[trigger] completions[i]).outcome is Ok,
    ensures
        after_completions(started(total), completions) == StepView::Finished(
            collected(completions),
        ),
{
    lemma_run_collects(total, completions);
}

/// All or nothing: the first lookup that fails fails the run with its error,
/// whatever the lookups before it gave and whatever completes after it. No
/// record is handed out.
pub proof fn lemma_first_failure_fails_run(total: nat, completions: Seq<CompletionView>, k: int)
    requires
        0 <= k < completions.len(),
        k < total,
        completions[k].outcome is Err,
        forall|i: int| 0 <= i < k ==> (#[trigger] completions[i]).outcome is Ok,
    ensures
        after_completions(started(total), completions) == StepView::Failed(
            completions[k].outcome->Err_0,
        ),
    decreases completions.len(),
{
    if k == completions.len() - 1 {
        let before = completions.drop_last();
        lemma_run_collects(total, before);
    } else {
        lemma_first_failure_fails_run(total, completions.drop_last(), k);
    }
}

impl Enrichment {
    #[verifier::type_invariant]
    spec fn batches_outstanding(&self) -> bool {
        self.completed < self.total
    }

    /// Number of batches of the run. A pending run has at least one.
    pub fn total(&self) -> (total: usize)
        ensures
            total == self@.total,
            total > 0,
    {
        proof {
            use_type_invariant(self);
        }
        self.total
    }

    /// Number of batches whose lookup has completed. In a pending run at
    /// least one batch is still outstanding.
    pub fn completed(&self) -> (completed: usize)
        ensures
            completed == self@.completed,
            completed < self@.total,
    {
        proof {
            use_type_invariant(self);
        }
        self.completed
    }

    /// By how many percent the run advances with each completed batch: the
    /// hundred percent divided evenly among the batches, rounded down.
    pub fn percent_per_batch(&self) -> (percent: i32)
        ensures
            percent == percent_of_batch(self@.total),
            0 <= percent <= 100,
    {
        proof {
            use_type_invariant(self);
        }
        let share: usize = 100 / self.total;
        share as i32
    }

    /// Takes in the completion of the lookup for `batch`, and says where the
    /// run stands then and which participants of the batch got no record. A
    /// failure ends the run with that failure, whatever other lookups gave. A
    /// mapping is reconciled with `batch`; the records join those of the
    /// batches that completed before, and the run finishes with all of them
    /// once the last batch has completed.
    pub fn complete(self, batch: &[ValidatorInfo], outcome: Result<IpDataMap, LookupError>) -> (taken: (
        Step,
        Vec<Unresolved>,
    ))
        ensures
            taken.0@ == after_completion(self@, batch.deep_view(), outcome_view(outcome)),
            taken.1.deep_view() == left_out_at(batch.deep_view(), outcome_view(outcome)),
    {
        proof {
            use_type_invariant(&self);
        }
        match outcome {
            Err(error) => {
                let left_out: Vec<Unresolved> = Vec::new();
                (Step::Failed(error), left_out)
            },
            Ok(mapping) => {
                let ghost before = self.records.deep_view();
                let mut records = self.records;
                let mut more = reconcile(batch, &mapping);
                let left_out = unresolved_participants(batch, &mapping);
                let ghost added = more.deep_view();
                records.append(&mut more);
                assert(records.deep_view() =~= before + added);
                let completed = self.completed + 1;
                if completed >= self.total {
                    (Step::Finished(records), left_out)
                } else {
                    (Step::Pending(Enrichment { total: self.total, completed, records }), left_out)
                }
            },
        }
    }
}

/// The lookup service as this process uses it: the credential that goes with
/// every request.
#[derive(Debug)]
pub struct IpInfo {
    api_key: String,
}

impl View for IpInfo {
    type V = Seq<char>;

    /// The credential.
    closed spec fn view(&self) -> Seq<char> {
        self.api_key@
    }
}

impl Clone for IpInfo {
    fn clone(&self) -> (copy: Self)
        ensures
            copy@ == self@,
    {
        IpInfo { api_key: self.api_key.clone() }
    }
}

impl IpInfo {
    /// The lookup service under the credential `api_key`.
    pub fn new(api_key: String) -> (info: IpInfo)
        ensures
            info@ == api_key@,
    {
        IpInfo { api_key }
    }

    /// The credential.
    pub fn api_key(&self) -> (api_key: &str)
        ensures
            api_key@ == self@,
    {
        self.api_key.as_str()
    }

    /// Starts the enrichment of `validators`: cuts them into batches of
    /// `batch_size` and says which lookup is to be made for each batch. The
    /// run then waits for these lookups, each of which is reported with
    /// [`Enrichment::complete`]; a run without participants is finished at
    /// once.
    pub fn get_validators_info(&self, validators: &[ValidatorInfo], batch_size: usize) -> (launch: (
        Vec<LookupRequest>,
        Step,
    ))
        requires
            batch_size > 0,
        ensures
            launch.0.deep_view() == requests_of(
                self@,
                batches_of(validators.deep_view(), batch_size as nat),
            ),
            launch.1@ == started(batches_of(validators.deep_view(), batch_size as nat).len()),
            launch.0@.len() == batch_count(validators@.len(), batch_size as nat),
            forall|i: int|
                0 <= i < launch.0@.len() ==> 0 < (#[trigger] launch.0@[i]).batch@.len()
                    <= batch_size,
    {
        let batches = split_batches(validators, batch_size);
        let total = batches.len();
        let ghost groups = batches.deep_view();
        let ghost batch_seq = batches@;
        let mut requests: Vec<LookupRequest> = Vec::new();
        for batch in it: batches
            invariant
                it.seq() == batch_seq,
                groups.len() == batch_seq.len(),
                forall|i: int| 0 <= i < batch_seq.len() ==> groups[i] == batch_seq[i].deep_view(),
                requests.deep_view() == requests_of(self@, groups.take(it.index())),
                requests@.len() == it.index(),
                forall|i: int|
                    0 <= i < requests@.len() ==> (#[trigger] requests@[i]).batch == batch_seq[i],
        {
            let ghost before = requests.deep_view();
            let url = lookup_url(self.api_key.as_str(), &batch);
            let request = LookupRequest { url, batch };
            requests.push(request);
            assert(requests.deep_view() =~= before.push(request@));
        }
        let records: Vec<ValidatorIpData> = Vec::new();
        assert(records.deep_view() =~= Seq::<IpDataView>::empty());
        let step = if total == 0 {
            Step::Finished(records)
        } else {
            Step::Pending(Enrichment { total, completed: 0, records })
        };
        (requests, step)
    }
}

} // verus!
