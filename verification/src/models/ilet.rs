//! What the pump vendor's service takes and gives.

use crate::decimal::{Decimal, DecimalView};
use vstd::prelude::*;

verus! {

/// The account at the pump vendor, and the pump it reads.
#[allow(non_camel_case_types)]
#[derive(Debug, PartialEq)]
pub struct iLetSecrets {
    pub username: String,
    pub password: String,
    pub serial_number: String,
}

/// What an `iLetSecrets` holds.
#[allow(non_camel_case_types)]
pub struct iLetSecretsView {
    pub username: Seq<char>,
    pub password: Seq<char>,
    pub serial_number: Seq<char>,
}

impl View for iLetSecrets {
    type V = iLetSecretsView;

    open spec fn view(&self) -> iLetSecretsView {
        iLetSecretsView {
            username: self.username@,
            password: self.password@,
            serial_number: self.serial_number@,
        }
    }
}

impl Clone for iLetSecrets {
    fn clone(&self) -> (r: Self)
        ensures
            r == *self,
    {
        iLetSecrets {
            username: self.username.clone(),
            password: self.password.clone(),
            serial_number: self.serial_number.clone(),
        }
    }
}

/// Why the vendor's service turned a request down.
#[derive(Clone, Copy, Debug, PartialEq, Eq, Structural)]
pub enum ServerErrors {
    /// A client error: the credentials were not accepted.
    BadUserInfo,
    /// A server error: the fault is on the vendor's side and may pass.
    ServerSideIssue,
}

impl ServerErrors {
    /// The operator's message for this error.
    pub open spec fn message_text(self) -> Seq<char> {
        match self {
            ServerErrors::BadUserInfo => "Check Inputted Credentials."@,
            ServerErrors::ServerSideIssue => "iLet Server gave an unexpected response, retry."@,
        }
    }

    /// The operator's message for this error, as a string.
    pub fn message(&self) -> (r: String)
        ensures
            r@ == self.message_text(),
    {
        match self {
            ServerErrors::BadUserInfo => "Check Inputted Credentials.".to_owned(),
            ServerErrors::ServerSideIssue => {
                "iLet Server gave an unexpected response, retry.".to_owned()
            },
        }
    }
}

/// The vendor's answer to a successful sign-in.
#[allow(non_camel_case_types)]
#[derive(Debug, PartialEq)]
pub struct iLetAuthResponse {
    pub message: Option<String>,
    pub status_code: i16,
    pub access_token: Option<String>,
    pub id_token: String,
    pub refresh_token: String,
    pub session: Option<String>,
    pub user_name: Option<String>,
}

/// What an `iLetAuthResponse` holds.
#[allow(non_camel_case_types)]
pub struct iLetAuthResponseView {
    pub message: Option<Seq<char>>,
    pub status_code: int,
    pub access_token: Option<Seq<char>>,
    pub id_token: Seq<char>,
    pub refresh_token: Seq<char>,
    pub session: Option<Seq<char>>,
    pub user_name: Option<Seq<char>>,
}

impl View for iLetAuthResponse {
    type V = iLetAuthResponseView;

    open spec fn view(&self) -> iLetAuthResponseView {
        iLetAuthResponseView {
            message: self.message.deep_view(),
            status_code: self.status_code as int,
            access_token: self.access_token.deep_view(),
            id_token: self.id_token@,
            refresh_token: self.refresh_token@,
            session: self.session.deep_view(),
            user_name: self.user_name.deep_view(),
        }
    }
}

/// One sample of the pump's telemetry, as the vendor reports it.
#[allow(non_camel_case_types)]
#[allow(non_snake_case)]
#[derive(Debug, PartialEq)]
pub struct iLetData {
    pub serial_number: String,
    pub app_adjusted_time: String,
    pub app_local_time: String,
    /// The pump's own count of samples.
    pub step_index: u64,
    /// The sensor's glucose reading; -1 where there is none.
    pub cgm_value: i16,
    pub basal_insulin_delivered: Decimal,
    pub total_insulin_delivered: Decimal,
    pub glucagon_delivered: Decimal,
    pub body_mass: u64,
    pub meal_type: u8,
    /// 0 where no dose answered a meal in this sample.
    pub meal_dose: u8,
    pub meal_size: u8,
    pub cf: u8,
    pub bR1: Decimal,
    pub bR2: Decimal,
    pub bR3: Decimal,
    pub bR4: Decimal,
    pub mdi: Decimal,
    pub breakfast: Decimal,
    pub lunch: Decimal,
    pub dinner: Decimal,
    pub cgm_target: u8,
    /// The glucose reading entered by hand; -1 where there is none.
    pub bgm_value: i16,
}

/// What an `iLetData` holds.
#[allow(non_camel_case_types)]
#[allow(non_snake_case)]
pub struct iLetDataView {
    pub serial_number: Seq<char>,
    pub app_adjusted_time: Seq<char>,
    pub app_local_time: Seq<char>,
    pub step_index: int,
    pub cgm_value: int,
    pub basal_insulin_delivered: DecimalView,
    pub total_insulin_delivered: DecimalView,
    pub glucagon_delivered: DecimalView,
    pub body_mass: int,
    pub meal_type: int,
    pub meal_dose: int,
    pub meal_size: int,
    pub cf: int,
    pub bR1: DecimalView,
    pub bR2: DecimalView,
    pub bR3: DecimalView,
    pub bR4: DecimalView,
    pub mdi: DecimalView,
    pub breakfast: DecimalView,
    pub lunch: DecimalView,
    pub dinner: DecimalView,
    pub cgm_target: int,
    pub bgm_value: int,
}

impl View for iLetData {
    type V = iLetDataView;

    open spec fn view(&self) -> iLetDataView {
        iLetDataView {
            serial_number: self.serial_number@,
            app_adjusted_time: self.app_adjusted_time@,
            app_local_time: self.app_local_time@,
            step_index: self.step_index as int,
            cgm_value: self.cgm_value as int,
            basal_insulin_delivered: self.basal_insulin_delivered@,
            total_insulin_delivered: self.total_insulin_delivered@,
            glucagon_delivered: self.glucagon_delivered@,
            body_mass: self.body_mass as int,
            meal_type: self.meal_type as int,
            meal_dose: self.meal_dose as int,
            meal_size: self.meal_size as int,
            cf: self.cf as int,
            bR1: self.bR1@,
            bR2: self.bR2@,
            bR3: self.bR3@,
            bR4: self.bR4@,
            mdi: self.mdi@,
            breakfast: self.breakfast@,
            lunch: self.lunch@,
            dinner: self.dinner@,
            cgm_target: self.cgm_target as int,
            bgm_value: self.bgm_value as int,
        }
    }
}

impl DeepView for iLetData {
    type V = iLetDataView;

    open spec fn deep_view(&self) -> iLetDataView {
        self@
    }
}

impl Clone for iLetData {
    fn clone(&self) -> (r: Self)
        ensures
            r == *self,
    {
        iLetData {
            serial_number: self.serial_number.clone(),
            app_adjusted_time: self.app_adjusted_time.clone(),
            app_local_time: self.app_local_time.clone(),
            step_index: self.step_index,
            cgm_value: self.cgm_value,
            basal_insulin_delivered: self.basal_insulin_delivered,
            total_insulin_delivered: self.total_insulin_delivered,
            glucagon_delivered: self.glucagon_delivered,
            body_mass: self.body_mass,
            meal_type: self.meal_type,
            meal_dose: self.meal_dose,
            meal_size: self.meal_size,
            cf: self.cf,
            bR1: self.bR1,
            bR2: self.bR2,
            bR3: self.bR3,
            bR4: self.bR4,
            mdi: self.mdi,
            breakfast: self.breakfast,
            lunch: self.lunch,
            dinner: self.dinner,
            cgm_target: self.cgm_target,
            bgm_value: self.bgm_value,
        }
    }
}

} // verus!
