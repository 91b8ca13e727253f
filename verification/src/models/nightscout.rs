//! The platform's documents: glucose entries, foods and treatments, each
//! inside the envelope that says where it comes from.

use crate::decimal::{Decimal, DecimalView};
use vstd::prelude::*;

verus! {

/// `chrono::TimeDelta`, a span of time. Nothing here looks inside one: a
/// document carries it as it was given.
#[verifier::external_type_specification]
#[verifier::external_body]
pub struct ExTimeDelta(chrono::TimeDelta);

/// A moment, counted from 1970-01-01T00:00:00Z.
#[derive(Clone, Copy, Debug, PartialEq, Eq, Structural)]
pub struct Timestamp {
    pub seconds: i64,
    pub nanoseconds: u32,
}

/// The envelope that every document shares.
#[derive(Debug, PartialEq)]
pub struct DocumentBase {
    /// An identifier the client assigns.
    pub identifier: Option<String>,
    /// When the event happened, as the pump wrote it.
    pub date: String,
    pub utc_offset: Option<i16>,
    /// The application the document comes from.
    pub app: String,
    /// The device the document comes from.
    pub device: Option<String>,
    /// Assigned by the platform, as are the fields below.
    pub _id: Option<String>,
    pub srv_created: Option<Timestamp>,
    pub subject: Option<String>,
    pub srv_modified: Option<Timestamp>,
    pub modified_by: Option<String>,
    pub is_valid: Option<bool>,
    pub is_read_only: Option<bool>,
}

/// What a `DocumentBase` holds.
pub struct DocumentBaseView {
    pub identifier: Option<Seq<char>>,
    pub date: Seq<char>,
    pub utc_offset: Option<i16>,
    pub app: Seq<char>,
    pub device: Option<Seq<char>>,
    pub _id: Option<Seq<char>>,
    pub srv_created: Option<Timestamp>,
    pub subject: Option<Seq<char>>,
    pub srv_modified: Option<Timestamp>,
    pub modified_by: Option<Seq<char>>,
    pub is_valid: Option<bool>,
    pub is_read_only: Option<bool>,
}

impl View for DocumentBase {
    type V = DocumentBaseView;

    open spec fn view(&self) -> DocumentBaseView {
        DocumentBaseView {
            identifier: self.identifier.deep_view(),
            date: self.date@,
            utc_offset: self.utc_offset,
            app: self.app@,
            device: self.device.deep_view(),
            _id: self._id.deep_view(),
            srv_created: self.srv_created,
            subject: self.subject.deep_view(),
            srv_modified: self.srv_modified,
            modified_by: self.modified_by.deep_view(),
            is_valid: self.is_valid,
            is_read_only: self.is_read_only,
        }
    }
}

impl DeepView for DocumentBase {
    type V = DocumentBaseView;

    open spec fn deep_view(&self) -> DocumentBaseView {
        self@
    }
}

impl Clone for DocumentBase {
    fn clone(&self) -> (r: Self)
        ensures
            r == *self,
    {
        DocumentBase {
            identifier: self.identifier.clone(),
            date: self.date.clone(),
            utc_offset: self.utc_offset,
            app: self.app.clone(),
            device: self.device.clone(),
            _id: self._id.clone(),
            srv_created: self.srv_created,
            subject: self.subject.clone(),
            srv_modified: self.srv_modified,
            modified_by: self.modified_by.clone(),
            is_valid: self.is_valid,
            is_read_only: self.is_read_only,
        }
    }
}
/// A glucose reading or a calibration of the sensor.
#[derive(Debug, PartialEq)]
pub struct Entry {
    pub base: DocumentBase,
    pub _type: Option<String>,
    pub sgv: Option<Decimal>,
    pub direction: Option<String>,
    pub noise: Option<Decimal>,
    pub filtered: Option<Decimal>,
    pub unfiltered: Option<Decimal>,
    pub rssi: Option<Decimal>,
    pub units: String,
}

/// What an `Entry` holds.
pub struct EntryView {
    pub base: DocumentBaseView,
    pub _type: Option<Seq<char>>,
    pub sgv: Option<DecimalView>,
    pub direction: Option<Seq<char>>,
    pub noise: Option<DecimalView>,
    pub filtered: Option<DecimalView>,
    pub unfiltered: Option<DecimalView>,
    pub rssi: Option<DecimalView>,
    pub units: Seq<char>,
}

impl View for Entry {
    type V = EntryView;

    open spec fn view(&self) -> EntryView {
        EntryView {
            base: self.base@,
            _type: self._type.deep_view(),
            sgv: self.sgv.deep_view(),
            direction: self.direction.deep_view(),
            noise: self.noise.deep_view(),
            filtered: self.filtered.deep_view(),
            unfiltered: self.unfiltered.deep_view(),
            rssi: self.rssi.deep_view(),
            units: self.units@,
        }
    }
}

impl DeepView for Entry {
    type V = EntryView;

    open spec fn deep_view(&self) -> EntryView {
        self@
    }
}

impl Clone for Entry {
    fn clone(&self) -> (r: Self)
        ensures
            r == *self,
    {
        Entry {
            base: self.base.clone(),
            _type: self._type.clone(),
            sgv: self.sgv,
            direction: self.direction.clone(),
            noise: self.noise,
            filtered: self.filtered,
            unfiltered: self.unfiltered,
            rssi: self.rssi,
            units: self.units.clone(),
        }
    }
}
/// The nutritional values of a food.
#[derive(Debug, PartialEq)]
pub struct Food {
    pub base: DocumentBase,
    pub food: Option<String>,
    pub category: Option<String>,
    pub subcategory: Option<String>,
    pub name: Option<String>,
    pub portion: Option<Decimal>,
    pub unit: Option<String>,
    pub carbs: Option<Decimal>,
    pub fat: Option<Decimal>,
    pub protein: Option<Decimal>,
    pub energy: Option<Decimal>,
    pub gi: Option<Decimal>,
    pub hide_after_use: Option<bool>,
    pub hidden: Option<bool>,
    pub position: Option<Decimal>,
    pub portions: Option<Decimal>,
}

/// What a `Food` holds.
pub struct FoodView {
    pub base: DocumentBaseView,
    pub food: Option<Seq<char>>,
    pub category: Option<Seq<char>>,
    pub subcategory: Option<Seq<char>>,
    pub name: Option<Seq<char>>,
    pub portion: Option<DecimalView>,
    pub unit: Option<Seq<char>>,
    pub carbs: Option<DecimalView>,
    pub fat: Option<DecimalView>,
    pub protein: Option<DecimalView>,
    pub energy: Option<DecimalView>,
    pub gi: Option<DecimalView>,
    pub hide_after_use: Option<bool>,
    pub hidden: Option<bool>,
    pub position: Option<DecimalView>,
    pub portions: Option<DecimalView>,
}

impl View for Food {
    type V = FoodView;

    open spec fn view(&self) -> FoodView {
        FoodView {
            base: self.base@,
            food: self.food.deep_view(),
            category: self.category.deep_view(),
            subcategory: self.subcategory.deep_view(),
            name: self.name.deep_view(),
            portion: self.portion.deep_view(),
            unit: self.unit.deep_view(),
            carbs: self.carbs.deep_view(),
            fat: self.fat.deep_view(),
            protein: self.protein.deep_view(),
            energy: self.energy.deep_view(),
            gi: self.gi.deep_view(),
            hide_after_use: self.hide_after_use,
            hidden: self.hidden,
            position: self.position.deep_view(),
            portions: self.portions.deep_view(),
        }
    }
}

impl DeepView for Food {
    type V = FoodView;

    open spec fn deep_view(&self) -> FoodView {
        self@
    }
}

impl Clone for Food {
    fn clone(&self) -> (r: Self)
        ensures
            r == *self,
    {
        Food {
            base: self.base.clone(),
            food: self.food.clone(),
            category: self.category.clone(),
            subcategory: self.subcategory.clone(),
            name: self.name.clone(),
            portion: self.portion,
            unit: self.unit.clone(),
            carbs: self.carbs,
            fat: self.fat,
            protein: self.protein,
            energy: self.energy,
            gi: self.gi,
            hide_after_use: self.hide_after_use,
            hidden: self.hidden,
            position: self.position,
            portions: self.portions,
        }
    }
}
/// Something done to treat: insulin given, carbohydrates eaten.
#[derive(Debug, PartialEq)]
pub struct Treatment {
    pub base: DocumentBase,
    /// What was done: "Basal", "Automated Bolus", "Food Bolus".
    pub event_type: Option<String>,
    /// The glucose reading at the event, in decimal digits.
    pub glucose: Option<String>,
    /// Where the reading comes from: "Sensor" or "Manual".
    pub glucose_type: Option<String>,
    /// The unit of the reading.
    pub units: Option<String>,
    pub carbs: Option<Decimal>,
    pub protein: Option<Decimal>,
    pub fat: Option<Decimal>,
    /// Units of insulin delivered.
    pub insulin: Option<Decimal>,
    pub duration: Option<chrono::TimeDelta>,
    pub pre_bolus: Option<chrono::TimeDelta>,
    pub split_now: Option<Decimal>,
    pub split_ext: Option<Decimal>,
    pub percent: Option<Decimal>,
    pub absolute: Option<Decimal>,
    pub target_top: Option<Decimal>,
    pub target_bottom: Option<Decimal>,
    pub profile: Option<String>,
    pub reason: Option<String>,
    pub notes: Option<String>,
    pub entered_by: Option<String>,
}

/// What a `Treatment` holds.
pub struct TreatmentView {
    pub base: DocumentBaseView,
    pub event_type: Option<Seq<char>>,
    pub glucose: Option<Seq<char>>,
    pub glucose_type: Option<Seq<char>>,
    pub units: Option<Seq<char>>,
    pub carbs: Option<DecimalView>,
    pub protein: Option<DecimalView>,
    pub fat: Option<DecimalView>,
    pub insulin: Option<DecimalView>,
    pub duration: Option<chrono::TimeDelta>,
    pub pre_bolus: Option<chrono::TimeDelta>,
    pub split_now: Option<DecimalView>,
    pub split_ext: Option<DecimalView>,
    pub percent: Option<DecimalView>,
    pub absolute: Option<DecimalView>,
    pub target_top: Option<DecimalView>,
    pub target_bottom: Option<DecimalView>,
    pub profile: Option<Seq<char>>,
    pub reason: Option<Seq<char>>,
    pub notes: Option<Seq<char>>,
    pub entered_by: Option<Seq<char>>,
}

impl View for Treatment {
    type V = TreatmentView;

    open spec fn view(&self) -> TreatmentView {
        TreatmentView {
            base: self.base@,
            event_type: self.event_type.deep_view(),
            glucose: self.glucose.deep_view(),
            glucose_type: self.glucose_type.deep_view(),
            units: self.units.deep_view(),
            carbs: self.carbs.deep_view(),
            protein: self.protein.deep_view(),
            fat: self.fat.deep_view(),
            insulin: self.insulin.deep_view(),
            duration: self.duration,
            pre_bolus: self.pre_bolus,
            split_now: self.split_now.deep_view(),
            split_ext: self.split_ext.deep_view(),
            percent: self.percent.deep_view(),
            absolute: self.absolute.deep_view(),
            target_top: self.target_top.deep_view(),
            target_bottom: self.target_bottom.deep_view(),
            profile: self.profile.deep_view(),
            reason: self.reason.deep_view(),
            notes: self.notes.deep_view(),
            entered_by: self.entered_by.deep_view(),
        }
    }
}

impl DeepView for Treatment {
    type V = TreatmentView;

    open spec fn deep_view(&self) -> TreatmentView {
        self@
    }
}

impl Clone for Treatment {
    fn clone(&self) -> (r: Self)
        ensures
            r == *self,
    {
        Treatment {
            base: self.base.clone(),
            event_type: self.event_type.clone(),
            glucose: self.glucose.clone(),
            glucose_type: self.glucose_type.clone(),
            units: self.units.clone(),
            carbs: self.carbs,
            protein: self.protein,
            fat: self.fat,
            insulin: self.insulin,
            duration: self.duration,
            pre_bolus: self.pre_bolus,
            split_now: self.split_now,
            split_ext: self.split_ext,
            percent: self.percent,
            absolute: self.absolute,
            target_top: self.target_top,
            target_bottom: self.target_bottom,
            profile: self.profile.clone(),
            reason: self.reason.clone(),
            notes: self.notes.clone(),
            entered_by: self.entered_by.clone(),
        }
    }
}
/// A document of the platform, by the collection that it belongs to.
#[derive(Debug, PartialEq)]
pub enum NSDocs {
    EntryDoc(Entry),
    FoodDoc(Food),
    TreatmentDoc(Treatment),
}

/// What an `NSDocs` holds.
pub enum NSDocsView {
    EntryDoc(EntryView),
    FoodDoc(FoodView),
    TreatmentDoc(TreatmentView),
}

impl View for NSDocs {
    type V = NSDocsView;

    open spec fn view(&self) -> NSDocsView {
        match self {
            NSDocs::EntryDoc(e) => NSDocsView::EntryDoc(e@),
            NSDocs::FoodDoc(f) => NSDocsView::FoodDoc(f@),
            NSDocs::TreatmentDoc(t) => NSDocsView::TreatmentDoc(t@),
        }
    }
}

impl NSDocsView {
    /// The collection of the platform that the document belongs to.
    pub open spec fn collection(self) -> Seq<char> {
        match self {
            NSDocsView::EntryDoc(_) => "entries"@,
            NSDocsView::FoodDoc(_) => "food"@,
            NSDocsView::TreatmentDoc(_) => "treatments"@,
        }
    }

    /// The envelope of the document.
    pub open spec fn base(self) -> DocumentBaseView {
        match self {
            NSDocsView::EntryDoc(e) => e.base,
            NSDocsView::FoodDoc(f) => f.base,
            NSDocsView::TreatmentDoc(t) => t.base,
        }
    }
}

impl NSDocs {
    /// The name of the collection that the document belongs to. It goes by
    /// the kind of the document alone.
    pub fn collection(&self) -> (r: &'static str)
        ensures
            r@ == self@.collection(),
    {
        match self {
            NSDocs::EntryDoc(_) => "entries",
            NSDocs::FoodDoc(_) => "food",
            NSDocs::TreatmentDoc(_) => "treatments",
        }
    }

    /// The envelope of the document.
    pub fn base(&self) -> (r: &DocumentBase)
        ensures
            r@ == self@.base(),
    {
        match self {
            NSDocs::EntryDoc(e) => &e.base,
            NSDocs::FoodDoc(f) => &f.base,
            NSDocs::TreatmentDoc(t) => &t.base,
        }
    }
}

impl DeepView for NSDocs {
    type V = NSDocsView;

    open spec fn deep_view(&self) -> NSDocsView {
        self@
    }
}

impl Clone for NSDocs {
    fn clone(&self) -> (r: Self)
        ensures
            r == *self,
    {
        match self {
            NSDocs::EntryDoc(e) => NSDocs::EntryDoc(e.clone()),
            NSDocs::FoodDoc(f) => NSDocs::FoodDoc(f.clone()),
            NSDocs::TreatmentDoc(t) => NSDocs::TreatmentDoc(t.clone()),
        }
    }
}

} // verus!
