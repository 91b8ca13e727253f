//! From telemetry to the platform's documents, and their upload.

use crate::decimal::{difference, Decimal, DecimalView};
use crate::models::ilet::{iLetData, iLetDataView};
use crate::http::{classify, status_class, StatusClass};
use crate::models::nightscout::{
    DocumentBase, DocumentBaseView, NSDocs, NSDocsView, Treatment, TreatmentView,
};
use crate::models::nightscout_web::{NightscoutSecrets, NightscoutSecretsView};
use crate::text::{int_text, int_to_text};
use vstd::prelude::*;

verus! {

/// The envelope of every document made from `record`: dated as the sample,
/// tagged with this application and the pump, and with nothing set that the
/// platform assigns.
pub open spec fn envelope(record: iLetDataView) -> DocumentBaseView {
    DocumentBaseView {
        identifier: None,
        date: record.app_local_time,
        utc_offset: None,
        app: "iLetSync-Web"@,
        device: Some("iLet"@),
        _id: None,
        srv_created: None,
        subject: None,
        srv_modified: None,
        modified_by: None,
        is_valid: None,
        is_read_only: None,
    }
}

/// The glucose reading of the sample: the one entered by hand, or the
/// sensor's where none was entered.
pub open spec fn glucose_reading(record: iLetDataView) -> int {
    if record.bgm_value == -1 {
        record.cgm_value
    } else {
        record.bgm_value
    }
}

/// Where the glucose reading comes from.
pub open spec fn glucose_source(record: iLetDataView) -> Seq<char> {
    if record.bgm_value == -1 {
        "Sensor"@
    } else {
        "Manual"@
    }
}

/// The treatment that reports `insulin` units given in the sample as an
/// event of the kind `event`.
pub open spec fn treatment(
    record: iLetDataView,
    event: Seq<char>,
    insulin: DecimalView,
) -> TreatmentView {
    TreatmentView {
        base: envelope(record),
        event_type: Some(event),
        glucose: Some(int_text(glucose_reading(record))),
        glucose_type: Some(glucose_source(record)),
        units: Some("mg/dl"@),
        carbs: None,
        protein: None,
        fat: None,
        insulin: Some(insulin),
        duration: None,
        pre_bolus: None,
        split_now: None,
        split_ext: None,
        percent: None,
        absolute: None,
        target_top: None,
        target_bottom: None,
        profile: None,
        reason: None,
        notes: None,
        entered_by: None,
    }
}

/// The basal treatment of the sample.
pub open spec fn basal_treatment(record: iLetDataView) -> TreatmentView {
    treatment(record, "Basal"@, record.basal_insulin_delivered)
}

/// The kind of a bolus in the sample: one that answers a meal where a meal
/// dose was given, else one the pump decided by itself.
pub open spec fn bolus_event(record: iLetDataView) -> Seq<char> {
    if record.meal_dose == 0 {
        "Automated Bolus"@
    } else {
        "Food Bolus"@
    }
}

/// The bolus treatment of the sample, for a bolus of `amount` units.
pub open spec fn bolus_treatment(record: iLetDataView, amount: DecimalView) -> TreatmentView {
    treatment(record, bolus_event(record), amount)
}

/// Insulin was delivered in the sample, and not all of it was basal.
pub open spec fn has_bolus(record: iLetDataView) -> bool {
    &&& !record.total_insulin_delivered.is_zero()
    &&& !record.total_insulin_delivered.same_value(record.basal_insulin_delivered)
}

/// The documents of a sample whose bolus, if it has one, is `bolus` units:
/// none where no insulin was delivered, the basal treatment where all of it
/// was basal, else the basal treatment and then the bolus treatment.
pub open spec fn documents(record: iLetDataView, bolus: DecimalView) -> Seq<NSDocsView> {
    if record.total_insulin_delivered.is_zero() {
        seq![]
    } else if record.total_insulin_delivered.same_value(record.basal_insulin_delivered) {
        seq![NSDocsView::TreatmentDoc(basal_treatment(record))]
    } else {
        seq![
            NSDocsView::TreatmentDoc(basal_treatment(record)),
            NSDocsView::TreatmentDoc(bolus_treatment(record, bolus)),
        ]
    }
}

/// The bolus of the sample: what was delivered beyond the basal insulin.
pub open spec fn bolus_amount(record: iLetDataView) -> Option<DecimalView> {
    difference(record.total_insulin_delivered, record.basal_insulin_delivered)
}

/// The sample has no bolus, or its amount can be computed.
pub open spec fn bolus_defined(record: iLetDataView) -> bool {
    has_bolus(record) ==> bolus_amount(record) is Some
}

/// The documents that a sample stands for.
pub open spec fn transform(record: iLetDataView) -> Seq<NSDocsView> {
    documents(record, bolus_amount(record).unwrap())
}

/// Up to two documents in two slots, filled from the front.
pub open spec fn in_slots(docs: Seq<NSDocsView>) -> Seq<Option<NSDocsView>> {
    seq![
        if docs.len() > 0 {
            Some(docs[0])
        } else {
            None
        },
        if docs.len() > 1 {
            Some(docs[1])
        } else {
            None
        },
    ]
}

fn envelope_of(record: &iLetData) -> (r: DocumentBase)
    ensures
        r@ == envelope(record@),
{
    DocumentBase {
        identifier: None,
        date: record.app_local_time.clone(),
        utc_offset: None,
        app: "iLetSync-Web".to_owned(),
        device: Some("iLet".to_owned()),
        _id: None,
        srv_created: None,
        subject: None,
        srv_modified: None,
        modified_by: None,
        is_valid: None,
        is_read_only: None,
    }
}

fn basal_of(record: &iLetData) -> (r: Treatment)
    ensures
        r@ == basal_treatment(record@),
{
    let manual = record.bgm_value != -1;
    let reading: i16 = if manual {
        record.bgm_value
    } else {
        record.cgm_value
    };
    let source = if manual {
        "Manual"
    } else {
        "Sensor"
    };
    Treatment {
        base: envelope_of(record),
        event_type: Some("Basal".to_owned()),
        glucose: Some(int_to_text(reading as i64)),
        glucose_type: Some(source.to_owned()),
        units: Some("mg/dl".to_owned()),
        carbs: None,
        protein: None,
        fat: None,
        insulin: Some(record.basal_insulin_delivered),
        duration: None,
        pre_bolus: None,
        split_now: None,
        split_ext: None,
        percent: None,
        absolute: None,
        target_top: None,
        target_bottom: None,
        profile: None,
        reason: None,
        notes: None,
        entered_by: None,
    }
}

/// The documents of a sample, given the amount of its bolus. `bolus` is read
/// only where the sample has a bolus.
#[allow(non_snake_case)]
pub fn documents_of(iLet_doc: &iLetData, bolus: Decimal) -> (r: [Option<NSDocs>; 2])
    ensures
        r.deep_view() == in_slots(documents(iLet_doc@, bolus@)),
{
    if iLet_doc.total_insulin_delivered.is_zero() {
        let r: [Option<NSDocs>; 2] = [None, None];
        assert(r.deep_view() =~= in_slots(documents(iLet_doc@, bolus@)));
        return r;
    }
    let basal = basal_of(iLet_doc);
    if iLet_doc.total_insulin_delivered == iLet_doc.basal_insulin_delivered {
        let r = [Some(NSDocs::TreatmentDoc(basal)), None];
        assert(r.deep_view() =~= in_slots(documents(iLet_doc@, bolus@)));
        return r;
    }
    let mut extra = basal.clone();
    extra.insulin = Some(bolus);
    extra.event_type = if iLet_doc.meal_dose == 0 {
        Some("Automated Bolus".to_owned())
    } else {
        Some("Food Bolus".to_owned())
    };
    let r = [Some(NSDocs::TreatmentDoc(basal)), Some(NSDocs::TreatmentDoc(extra))];
    assert(r.deep_view() =~= in_slots(documents(iLet_doc@, bolus@)));
    r
}

/// No insulin, no document: both slots are empty where the sample tells of
/// no insulin delivered.
pub open spec fn no_insulin_no_document(
    record: iLetDataView,
    slots: Seq<Option<NSDocsView>>,
) -> bool {
    record.total_insulin_delivered.is_zero() ==> slots[0] is None && slots[1] is None
}

/// Insulin that was all basal gives one document, the basal treatment,
/// whatever the meal dose.
pub open spec fn all_basal_one_document(
    record: iLetDataView,
    slots: Seq<Option<NSDocsView>>,
) -> bool {
    !record.total_insulin_delivered.is_zero() && record.total_insulin_delivered.same_value(
        record.basal_insulin_delivered,
    ) ==> {
        &&& slots[0] matches Some(NSDocsView::TreatmentDoc(t))
        &&& t.event_type == Some("Basal"@)
        &&& t.insulin == Some(record.basal_insulin_delivered)
        &&& slots[1] is None
    }
}

/// A sample with a bolus gives two documents: the basal treatment, then the
/// bolus, named by the meal dose, whose insulin is the total less the basal
/// insulin.
pub open spec fn bolus_by_kind_and_amount(
    record: iLetDataView,
    slots: Seq<Option<NSDocsView>>,
) -> bool {
    has_bolus(record) ==> {
        &&& slots[0] matches Some(NSDocsView::TreatmentDoc(first))
        &&& first.event_type == Some("Basal"@)
        &&& first.insulin == Some(record.basal_insulin_delivered)
        &&& slots[1] matches Some(NSDocsView::TreatmentDoc(second))
        &&& second.insulin == difference(
            record.total_insulin_delivered,
            record.basal_insulin_delivered,
        )
        &&& record.meal_dose == 0 ==> second.event_type == Some("Automated Bolus"@)
        &&& record.meal_dose != 0 ==> second.event_type == Some("Food Bolus"@)
    }
}

/// Every document tells the glucose reading and where it comes from: the
/// sensor's where the reading entered by hand is -1, else the one entered by
/// hand. The sensor's reading is never tested.
pub open spec fn glucose_by_source(record: iLetDataView, slots: Seq<Option<NSDocsView>>) -> bool {
    forall|i: int|
        0 <= i < 2 ==> (#[trigger] slots[i] matches Some(NSDocsView::TreatmentDoc(t)) ==> {
            &&& record.bgm_value == -1 ==> {
                &&& t.glucose_type == Some("Sensor"@)
                &&& t.glucose == Some(int_text(record.cgm_value))
            }
            &&& record.bgm_value != -1 ==> {
                &&& t.glucose_type == Some("Manual"@)
                &&& t.glucose == Some(int_text(record.bgm_value))
            }
        })
}

/// The documents that a sample of telemetry stands for, in two slots filled
/// from the front: none where no insulin was delivered; the basal treatment
/// where all of it was basal; else the basal treatment and then the bolus
/// treatment, whose insulin is the total less the basal insulin.
///
/// The sample must be one whose bolus, if it has one, can be computed:
/// `try_iLet_to_ns` tests that first, and takes any sample.
#[allow(non_snake_case)]
pub fn iLet_to_ns(iLet_doc: iLetData) -> (r: [Option<NSDocs>; 2])
    requires
        bolus_defined(iLet_doc@),
    ensures
        r.deep_view() == in_slots(transform(iLet_doc@)),
        no_insulin_no_document(iLet_doc@, r.deep_view()),
        all_basal_one_document(iLet_doc@, r.deep_view()),
        bolus_by_kind_and_amount(iLet_doc@, r.deep_view()),
        glucose_by_source(iLet_doc@, r.deep_view()),
{
    let total = iLet_doc.total_insulin_delivered;
    let basal = iLet_doc.basal_insulin_delivered;
    let bolus = if total.is_zero() || total == basal {
        Decimal::zero()
    } else {
        total.checked_sub(basal).unwrap()
    };
    let r = documents_of(&iLet_doc, bolus);
    proof {
        assert(r.deep_view()[0] == in_slots(transform(iLet_doc@))[0]);
        assert(r.deep_view()[1] == in_slots(transform(iLet_doc@))[1]);
    }
    r
}

/// `iLet_to_ns` for any sample: `None` exactly where the sample has a bolus
/// whose amount cannot be computed, and then nothing is made of it; else the
/// documents of the sample, under the same rules.
#[allow(non_snake_case)]
pub fn try_iLet_to_ns(iLet_doc: iLetData) -> (r: Option<[Option<NSDocs>; 2]>)
    ensures
        r is Some <==> bolus_defined(iLet_doc@),
        r matches Some(docs) ==> {
            &&& docs.deep_view() == in_slots(transform(iLet_doc@))
            &&& no_insulin_no_document(iLet_doc@, docs.deep_view())
            &&& all_basal_one_document(iLet_doc@, docs.deep_view())
            &&& bolus_by_kind_and_amount(iLet_doc@, docs.deep_view())
            &&& glucose_by_source(iLet_doc@, docs.deep_view())
        },
{
    let total = iLet_doc.total_insulin_delivered;
    let basal = iLet_doc.basal_insulin_delivered;
    if !total.is_zero() && !(total == basal) && total.checked_sub(basal).is_none() {
        None
    } else {
        Some(iLet_to_ns(iLet_doc))
    }
}

/// The document reports a dose of less than no insulin. A sample that tells
/// of less insulin in total than basal insulin has such a bolus.
pub open spec fn negative_dose(doc: NSDocsView) -> bool {
    &&& doc matches NSDocsView::TreatmentDoc(t)
    &&& t.insulin matches Some(amount)
    &&& amount.mantissa < 0
}

/// Tells whether a document reports a negative dose. Such a document is
/// passed on as it is; this is for whoever wants to know of it.
pub fn has_negative_dose(doc: &NSDocs) -> (r: bool)
    ensures
        r == negative_dose(doc@),
{
    match doc {
        NSDocs::TreatmentDoc(t) => match &t.insulin {
            Some(amount) => amount.is_negative(),
            None => false,
        },
        _ => false,
    }
}

/// The documents of a sample depend on what the sample holds and on nothing
/// else: whatever two calls of `iLet_to_ns` return for two samples that hold
/// the same holds the same documents.
pub proof fn law_same_sample_same_documents(
    one: iLetData,
    other: iLetData,
    first: [Option<NSDocs>; 2],
    second: [Option<NSDocs>; 2],
)
    requires
        one@ == other@,
        call_ensures(iLet_to_ns, (one,), first),
        call_ensures(iLet_to_ns, (other,), second),
    ensures
        first.deep_view() == second.deep_view(),
{
}

/// The same of `try_iLet_to_ns`, which takes any sample: two calls on
/// samples that hold the same both give nothing, or both give the same
/// documents.
pub proof fn law_same_sample_same_outcome(
    one: iLetData,
    other: iLetData,
    first: Option<[Option<NSDocs>; 2]>,
    second: Option<[Option<NSDocs>; 2]>,
)
    requires
        one@ == other@,
        call_ensures(try_iLet_to_ns, (one,), first),
        call_ensures(try_iLet_to_ns, (other,), second),
    ensures
        first is Some <==> second is Some,
        first.deep_view() == second.deep_view(),
{
}

/// Where a document is posted on the platform at `base`: a slash stands
/// between the address and the path.
pub open spec fn upload_url(base: Seq<char>, doc: NSDocsView) -> Seq<char> {
    base + "/api/v3/"@ + doc.collection()
}

/// Where the platform at `ns_info.website` gives out a token for
/// `ns_info.permission_role`: the path stands straight behind the address,
/// with no slash put between them.
pub open spec fn token_url(ns_info: NightscoutSecretsView) -> Seq<char> {
    ns_info.website + "api/v2/authorization/request/"@ + ns_info.permission_role
}

/// A document to post, with the address and the credential to post it with.
#[derive(Debug, PartialEq)]
pub struct Upload {
    /// The address to post to.
    pub url: String,
    /// The value of the `Authorization` header.
    pub authorization: String,
    /// The body of the request, once written as JSON.
    pub document: NSDocs,
}

/// What an `Upload` holds.
pub struct UploadView {
    pub url: Seq<char>,
    pub authorization: Seq<char>,
    pub document: NSDocsView,
}

impl View for Upload {
    type V = UploadView;

    open spec fn view(&self) -> UploadView {
        UploadView {
            url: self.url@,
            authorization: self.authorization@,
            document: self.document@,
        }
    }
}

impl DeepView for Upload {
    type V = UploadView;

    open spec fn deep_view(&self) -> UploadView {
        self@
    }
}

/// The upload of one document to the platform at `base`, as the bearer of
/// `token`.
pub open spec fn upload(base: Seq<char>, token: Seq<char>, doc: NSDocsView) -> UploadView {
    UploadView { url: upload_url(base, doc), authorization: "Bearer "@ + token, document: doc }
}

/// The uploads of `docs`, one for each and in their order.
pub open spec fn uploads(base: Seq<char>, token: Seq<char>, docs: Seq<NSDocsView>) -> Seq<
    UploadView,
> {
    docs.map_values(|doc: NSDocsView| upload(base, token, doc))
}

/// The documents of a batch of samples: those of the first sample, then
/// those of the second, and so on.
pub open spec fn batch(records: Seq<iLetDataView>) -> Seq<NSDocsView>
    decreases records.len(),
{
    if records.len() == 0 {
        seq![]
    } else {
        batch(records.drop_last()) + transform(records.last())
    }
}

/// The request that asks the platform for a write token: the address to get.
pub fn generate_token(ns_info: &NightscoutSecrets) -> (r: String)
    ensures
        r@ == token_url(ns_info@),
{
    let mut url = ns_info.website.clone();
    url.append("api/v2/authorization/request/");
    url.append(ns_info.permission_role.as_str());
    url
}

/// The upload of `doc` to the platform at `base`, as the bearer of `token`.
pub fn upload_of(base: &str, token: &str, doc: NSDocs) -> (r: Upload)
    ensures
        r@ == upload(base@, token@, doc@),
{
    let mut url = base.to_owned();
    url.append("/api/v3/");
    url.append(doc.collection());
    let mut authorization = "Bearer ".to_owned();
    authorization.append(token);
    Upload { url, authorization, document: doc }
}

fn push_slot(plan: &mut Vec<Upload>, base: &str, token: &str, slot: &Option<NSDocs>)
    ensures
        final(plan).deep_view() == old(plan).deep_view() + (match slot.deep_view() {
            Some(doc) => seq![upload(base@, token@, doc)],
            None => seq![],
        }),
{
    match slot {
        Some(doc) => {
            plan.push(upload_of(base, token, doc.clone()));
            assert(plan.deep_view() =~= old(plan).deep_view() + seq![
                upload(base@, token@, doc@),
            ]);
        },
        None => {
            assert(plan.deep_view() =~= old(plan).deep_view() + Seq::<UploadView>::empty());
        },
    }
}

/// What is to be sent to the platform for a batch of samples: the documents
/// of each sample, in the order of the samples, each with the address of its
/// collection and the credential `ns_token`. Each is a request of its own;
/// none waits for another. `None` where a sample has a bolus whose amount
/// cannot be computed; nothing is then to be sent.
#[allow(non_snake_case)]
pub fn iLet_to_ns_server(
    iLet_data: Vec<iLetData>,
    ns_token: String,
    ns_info: NightscoutSecrets,
) -> (r: Option<Vec<Upload>>)
    ensures
        r is Some <==> forall|i: int|
            0 <= i < iLet_data.len() ==> bolus_defined(#[trigger] iLet_data[i]@),
        r matches Some(plan) ==> plan.deep_view() == uploads(
            ns_info@.website,
            ns_token@,
            batch(iLet_data.deep_view()),
        ),
{
    let base = ns_info.website.as_str();
    let token = ns_token.as_str();
    let mut plan: Vec<Upload> = Vec::new();
    let mut i: usize = 0;
    assert(iLet_data.deep_view().take(0) =~= Seq::<iLetDataView>::empty());
    assert(plan.deep_view() =~= uploads(base@, token@, Seq::<NSDocsView>::empty()));
    while i < iLet_data.len()
        invariant
            i <= iLet_data.len(),
            base@ == ns_info@.website,
            token@ == ns_token@,
            forall|j: int| 0 <= j < i ==> bolus_defined(#[trigger] iLet_data[j]@),
            plan.deep_view() == uploads(
                base@,
                token@,
                batch(iLet_data.deep_view().take(i as int)),
            ),
        decreases iLet_data.len() - i,
    {
        let docs = match try_iLet_to_ns(iLet_data[i].clone()) {
            Some(docs) => docs,
            None => {
                return None;
            },
        };
        let ghost before = plan.deep_view();
        push_slot(&mut plan, base, token, &docs[0]);
        push_slot(&mut plan, base, token, &docs[1]);
        proof {
            broadcast use vstd::array::group_array_axioms;

            let records = iLet_data.deep_view();
            let made = transform(iLet_data[i as int]@);
            assert(records.take(i + 1).drop_last() =~= records.take(i as int));
            assert(records.take(i + 1).last() == iLet_data[i as int]@);
            assert(docs[0].deep_view() == docs.deep_view()[0]);
            assert(docs[1].deep_view() == docs.deep_view()[1]);
            assert(plan.deep_view() =~= before + uploads(base@, token@, made));
            assert(before + uploads(base@, token@, made) =~= uploads(
                base@,
                token@,
                batch(records.take(i as int)) + made,
            ));
        }
        i += 1;
    }
    assert(iLet_data.deep_view().take(i as int) =~= iLet_data.deep_view());
    Some(plan)
}

/// What came of sending one document.
#[derive(Clone, Copy, Debug, PartialEq, Eq, Structural)]
pub enum Delivery {
    /// No response: the request could not be sent, or nothing came back.
    Unanswered,
    /// The platform answered with `status`; `acknowledged` tells whether the
    /// body of its answer was the acknowledgment that it owes.
    Answered { status: u16, acknowledged: bool },
}

/// The platform's acknowledgment of a document.
#[derive(Clone, Copy, Debug, PartialEq, Eq, Structural)]
pub struct Ack {
    pub status: u16,
}

/// Why a document counts as not stored.
#[derive(Clone, Copy, Debug, PartialEq, Eq, Structural)]
pub enum DispatchError {
    /// No response came.
    Transport,
    /// The platform answered with a status that is not a success.
    Refused { status: u16 },
    /// The platform answered with a success, but not with an acknowledgment.
    MalformedAck { status: u16 },
}

/// The outcome of one delivery: stored only where the platform answered with
/// a success and an acknowledgment.
pub open spec fn outcome(delivery: Delivery) -> Result<Ack, DispatchError> {
    match delivery {
        Delivery::Unanswered => Err(DispatchError::Transport),
        Delivery::Answered { status, acknowledged } => {
            if status_class(status as int) != StatusClass::Success {
                Err(DispatchError::Refused { status })
            } else if !acknowledged {
                Err(DispatchError::MalformedAck { status })
            } else {
                Ok(Ack { status })
            }
        },
    }
}

/// The outcomes of a batch of deliveries, one for each and in their order.
pub open spec fn outcomes(deliveries: Seq<Delivery>) -> Seq<Result<Ack, DispatchError>> {
    deliveries.map_values(|delivery: Delivery| outcome(delivery))
}

/// Judges one delivery.
pub fn judge(delivery: Delivery) -> (r: Result<Ack, DispatchError>)
    ensures
        r == outcome(delivery),
{
    match delivery {
        Delivery::Unanswered => Err(DispatchError::Transport),
        Delivery::Answered { status, acknowledged } => {
            match classify(status) {
                StatusClass::Success => {
                    if acknowledged {
                        Ok(Ack { status })
                    } else {
                        Err(DispatchError::MalformedAck { status })
                    }
                },
                _ => Err(DispatchError::Refused { status }),
            }
        },
    }
}

/// Judges every delivery of a batch by itself: a failure fails its own
/// document and no other.
pub fn judge_all(deliveries: &Vec<Delivery>) -> (r: Vec<Result<Ack, DispatchError>>)
    ensures
        r@ == outcomes(deliveries@),
{
    let mut results: Vec<Result<Ack, DispatchError>> = Vec::new();
    let mut i: usize = 0;
    while i < deliveries.len()
        invariant
            i <= deliveries.len(),
            results@ == outcomes(deliveries@.take(i as int)),
        decreases deliveries.len() - i,
    {
        results.push(judge(deliveries[i]));
        assert(results@ =~= outcomes(deliveries@.take(i + 1)));
        i += 1;
    }
    assert(deliveries@.take(i as int) =~= deliveries@);
    results
}

/// How many of the outcomes are failures.
pub open spec fn failures(results: Seq<Result<Ack, DispatchError>>) -> nat
    decreases results.len(),
{
    if results.len() == 0 {
        0
    } else {
        failures(results.drop_last()) + if results.last() is Err {
            1nat
        } else {
            0nat
        }
    }
}

/// Counts the failures among the outcomes of a batch.
pub fn count_failures(results: &Vec<Result<Ack, DispatchError>>) -> (r: usize)
    ensures
        r == failures(results@),
{
    let mut count: usize = 0;
    let mut i: usize = 0;
    assert(results@.take(0) =~= Seq::<Result<Ack, DispatchError>>::empty());
    while i < results.len()
        invariant
            i <= results.len(),
            count <= i,
            count == failures(results@.take(i as int)),
        decreases results.len() - i,
    {
        assert(results@.take(i + 1).drop_last() =~= results@.take(i as int));
        if results[i].is_err() {
            count += 1;
        }
        i += 1;
    }
    assert(results@.take(i as int) =~= results@);
    count
}

proof fn lemma_failures_up_to(deliveries: Seq<Delivery>, k: int, n: int)
    requires
        0 <= k < deliveries.len(),
        0 <= n <= deliveries.len(),
        outcome(deliveries[k]) is Err,
        forall|i: int|
            0 <= i < deliveries.len() && i != k ==> outcome(#[trigger] deliveries[i]) is Ok,
    ensures
        failures(outcomes(deliveries).take(n)) == if k < n {
            1nat
        } else {
            0nat
        },
    decreases n,
{
    let results = outcomes(deliveries);
    if n > 0 {
        lemma_failures_up_to(deliveries, k, n - 1);
        assert(results.take(n).drop_last() =~= results.take(n - 1));
        assert(results.take(n).last() == outcome(deliveries[n - 1]));
    }
}

/// A failure stays with its own document: where the delivery at `k` fails
/// and every other delivery of the batch succeeds, there are as many
/// outcomes as deliveries, and the only failure among them is the one at `k`.
pub proof fn law_dispatch_isolation(deliveries: Seq<Delivery>, k: int)
    requires
        0 <= k < deliveries.len(),
        outcome(deliveries[k]) is Err,
        forall|i: int|
            0 <= i < deliveries.len() && i != k ==> outcome(#[trigger] deliveries[i]) is Ok,
    ensures
        outcomes(deliveries).len() == deliveries.len(),
        forall|i: int|
            0 <= i < deliveries.len() ==> (#[trigger] outcomes(deliveries)[i] is Err <==> i == k),
        failures(outcomes(deliveries)) == 1,
{
    let results = outcomes(deliveries);
    assert forall|i: int| 0 <= i < deliveries.len() implies (#[trigger] results[i] is Err <==> i
        == k) by {
        assert(results[i] == outcome(deliveries[i]));
    }
    lemma_failures_up_to(deliveries, k, deliveries.len() as int);
    assert(results.take(deliveries.len() as int) =~= results);
}

} // verus!
