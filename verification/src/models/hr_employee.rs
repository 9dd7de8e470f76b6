//! Employees (`hr.employee`).

use vstd::prelude::*;

use crate::models::Many2OneRepr;
use crate::utils::text_is;

verus! {

/// The Odoo model of employees.
pub const HR_EMPLOYEE_MODEL_NAME: &'static str = "hr.employee";

/// Whether an employee is at work.
#[derive(Debug, Clone, Copy, PartialEq, Eq, Structural, PartialOrd, Ord, Hash)]
pub enum HrPresenceState {
    Present,
    Absent,
    Archive,
    OutOfWorkingHour,
}

impl HrPresenceState {
    /// The position of the value in declaration order.
    pub open spec fn spec_position(self) -> int {
        match self {
            HrPresenceState::Present => 0,
            HrPresenceState::Absent => 1,
            HrPresenceState::Archive => 2,
            HrPresenceState::OutOfWorkingHour => 3,
        }
    }

    /// The labels that Odoo shows, in declaration order.
    pub open spec fn spec_labels() -> Seq<Seq<char>> {
        seq!["Present"@, "Absent"@, "Archived"@, "Off-Hours"@]
    }

    /// The label that Odoo shows for the value.
    pub open spec fn spec_display(self) -> Seq<char> {
        HrPresenceState::spec_labels()[self.spec_position()]
    }

    /// The key under which Odoo stores the value.
    pub open spec fn spec_selection_key(self) -> Seq<char> {
        match self {
            HrPresenceState::Present => "present"@,
            HrPresenceState::Absent => "absent"@,
            HrPresenceState::Archive => "archive"@,
            HrPresenceState::OutOfWorkingHour => "out_of_working_hour"@,
        }
    }

    /// The value stored under `key`, if any.
    pub open spec fn spec_from_selection_key(key: Seq<char>) -> Option<HrPresenceState> {
        if key == "present"@ {
            Some(HrPresenceState::Present)
        } else if key == "absent"@ {
            Some(HrPresenceState::Absent)
        } else if key == "archive"@ {
            Some(HrPresenceState::Archive)
        } else if key == "out_of_working_hour"@ {
            Some(HrPresenceState::OutOfWorkingHour)
        } else {
            None
        }
    }

    /// The position of the value in declaration order.
    fn position(&self) -> (res: usize)
        ensures
            res == self.spec_position(),
            res < 4,
    {
        match self {
            HrPresenceState::Present => 0,
            HrPresenceState::Absent => 1,
            HrPresenceState::Archive => 2,
            HrPresenceState::OutOfWorkingHour => 3,
        }
    }

    /// The label that Odoo shows for the value.
    pub fn to_display_string(&self) -> (res: String)
        ensures
            res@ == self.spec_display(),
    {
        let labels: [&str; 4] = ["Present", "Absent", "Archived", "Off-Hours"];
        assert(labels@.map_values(|s: &str| s@) =~= HrPresenceState::spec_labels());
        labels[self.position()].to_owned()
    }

    /// The key under which Odoo stores the value.
    pub fn selection_key(&self) -> (res: &'static str)
        ensures
            res@ == self.spec_selection_key(),
    {
        match self {
            HrPresenceState::Present => "present",
            HrPresenceState::Absent => "absent",
            HrPresenceState::Archive => "archive",
            HrPresenceState::OutOfWorkingHour => "out_of_working_hour",
        }
    }

    /// The value stored under `key`, if any.
    pub fn from_selection_key(key: &str) -> (res: Option<HrPresenceState>)
        ensures
            res == HrPresenceState::spec_from_selection_key(key@),
    {
        if text_is(key, "present") {
            Some(HrPresenceState::Present)
        } else if text_is(key, "absent") {
            Some(HrPresenceState::Absent)
        } else if text_is(key, "archive") {
            Some(HrPresenceState::Archive)
        } else if text_is(key, "out_of_working_hour") {
            Some(HrPresenceState::OutOfWorkingHour)
        } else {
            None
        }
    }

    /// Law: the value stored under a value's key is that value, so
    /// values are written and read back unchanged.
    pub proof fn lemma_selection_key_roundtrip(self)
        ensures
            HrPresenceState::spec_from_selection_key(self.spec_selection_key()) == Some(self),
    {
        reveal_strlit("present");
        reveal_strlit("absent");
        reveal_strlit("archive");
        reveal_strlit("out_of_working_hour");
        assert("present"@.len() != "absent"@.len());
        assert("present"@[0] != "archive"@[0]);
        assert("present"@.len() != "out_of_working_hour"@.len());
        assert("absent"@.len() != "archive"@.len());
        assert("absent"@.len() != "out_of_working_hour"@.len());
        assert("archive"@.len() != "out_of_working_hour"@.len());
    }

    /// Law: each value is shown under its Odoo label and stored under its
    /// Odoo key (Present as "present", Absent as "absent", Archive as "archive", OutOfWorkingHour as "out_of_working_hour"), and a key reads back as exactly the value
    /// stored under it.
    pub proof fn lemma_labels_and_keys()
        ensures
            HrPresenceState::Present.spec_display() == "Present"@,
            HrPresenceState::Present.spec_selection_key() == "present"@,
            HrPresenceState::Absent.spec_display() == "Absent"@,
            HrPresenceState::Absent.spec_selection_key() == "absent"@,
            HrPresenceState::Archive.spec_display() == "Archived"@,
            HrPresenceState::Archive.spec_selection_key() == "archive"@,
            HrPresenceState::OutOfWorkingHour.spec_display() == "Off-Hours"@,
            HrPresenceState::OutOfWorkingHour.spec_selection_key() == "out_of_working_hour"@,
            forall|key: Seq<char>, v: HrPresenceState|
                HrPresenceState::spec_from_selection_key(key) == Some(v) <==> key == v.spec_selection_key(),
    {
        reveal_strlit("present");
        reveal_strlit("absent");
        reveal_strlit("archive");
        reveal_strlit("out_of_working_hour");
        assert forall|key: Seq<char>, v: HrPresenceState|
            HrPresenceState::spec_from_selection_key(key) == Some(v) <==> key == v.spec_selection_key() by {
            v.lemma_selection_key_roundtrip();
        }
    }
}

impl Default for HrPresenceState {
    fn default() -> (res: HrPresenceState)
        ensures
            res == HrPresenceState::OutOfWorkingHour,
    {
        HrPresenceState::OutOfWorkingHour
    }
}

/// The presence icon shown for an employee.
#[derive(Debug, Clone, Copy, PartialEq, Eq, Structural, PartialOrd, Ord, Hash)]
pub enum HrIconDisplay {
    PresencePresent,
    PresenceOutOfWorkingHour,
    PresenceAbsent,
    PresenceArchive,
    PresenceUndetermined,
}

impl HrIconDisplay {
    /// The position of the value in declaration order.
    pub open spec fn spec_position(self) -> int {
        match self {
            HrIconDisplay::PresencePresent => 0,
            HrIconDisplay::PresenceOutOfWorkingHour => 1,
            HrIconDisplay::PresenceAbsent => 2,
            HrIconDisplay::PresenceArchive => 3,
            HrIconDisplay::PresenceUndetermined => 4,
        }
    }

    /// The labels that Odoo shows, in declaration order.
    pub open spec fn spec_labels() -> Seq<Seq<char>> {
        seq!["Present"@, "Off-Hours"@, "Absent"@, "Archived"@, "Undetermined"@]
    }

    /// The label that Odoo shows for the value.
    pub open spec fn spec_display(self) -> Seq<char> {
        HrIconDisplay::spec_labels()[self.spec_position()]
    }

    /// The key under which Odoo stores the value.
    pub open spec fn spec_selection_key(self) -> Seq<char> {
        match self {
            HrIconDisplay::PresencePresent => "presence_present"@,
            HrIconDisplay::PresenceOutOfWorkingHour => "presence_out_of_working_hour"@,
            HrIconDisplay::PresenceAbsent => "presence_absent"@,
            HrIconDisplay::PresenceArchive => "presence_archive"@,
            HrIconDisplay::PresenceUndetermined => "presence_undetermined"@,
        }
    }

    /// The value stored under `key`, if any.
    pub open spec fn spec_from_selection_key(key: Seq<char>) -> Option<HrIconDisplay> {
        if key == "presence_present"@ {
            Some(HrIconDisplay::PresencePresent)
        } else if key == "presence_out_of_working_hour"@ {
            Some(HrIconDisplay::PresenceOutOfWorkingHour)
        } else if key == "presence_absent"@ {
            Some(HrIconDisplay::PresenceAbsent)
        } else if key == "presence_archive"@ {
            Some(HrIconDisplay::PresenceArchive)
        } else if key == "presence_undetermined"@ {
            Some(HrIconDisplay::PresenceUndetermined)
        } else {
            None
        }
    }

    /// The position of the value in declaration order.
    fn position(&self) -> (res: usize)
        ensures
            res == self.spec_position(),
            res < 5,
    {
        match self {
            HrIconDisplay::PresencePresent => 0,
            HrIconDisplay::PresenceOutOfWorkingHour => 1,
            HrIconDisplay::PresenceAbsent => 2,
            HrIconDisplay::PresenceArchive => 3,
            HrIconDisplay::PresenceUndetermined => 4,
        }
    }

    /// The label that Odoo shows for the value.
    pub fn to_display_string(&self) -> (res: String)
        ensures
            res@ == self.spec_display(),
    {
        let labels: [&str; 5] = ["Present", "Off-Hours", "Absent", "Archived", "Undetermined"];
        assert(labels@.map_values(|s: &str| s@) =~= HrIconDisplay::spec_labels());
        labels[self.position()].to_owned()
    }

    /// The key under which Odoo stores the value.
    pub fn selection_key(&self) -> (res: &'static str)
        ensures
            res@ == self.spec_selection_key(),
    {
        match self {
            HrIconDisplay::PresencePresent => "presence_present",
            HrIconDisplay::PresenceOutOfWorkingHour => "presence_out_of_working_hour",
            HrIconDisplay::PresenceAbsent => "presence_absent",
            HrIconDisplay::PresenceArchive => "presence_archive",
            HrIconDisplay::PresenceUndetermined => "presence_undetermined",
        }
    }

    /// The value stored under `key`, if any.
    pub fn from_selection_key(key: &str) -> (res: Option<HrIconDisplay>)
        ensures
            res == HrIconDisplay::spec_from_selection_key(key@),
    {
        if text_is(key, "presence_present") {
            Some(HrIconDisplay::PresencePresent)
        } else if text_is(key, "presence_out_of_working_hour") {
            Some(HrIconDisplay::PresenceOutOfWorkingHour)
        } else if text_is(key, "presence_absent") {
            Some(HrIconDisplay::PresenceAbsent)
        } else if text_is(key, "presence_archive") {
            Some(HrIconDisplay::PresenceArchive)
        } else if text_is(key, "presence_undetermined") {
            Some(HrIconDisplay::PresenceUndetermined)
        } else {
            None
        }
    }

    /// Law: the value stored under a value's key is that value, so
    /// values are written and read back unchanged.
    pub proof fn lemma_selection_key_roundtrip(self)
        ensures
            HrIconDisplay::spec_from_selection_key(self.spec_selection_key()) == Some(self),
    {
        reveal_strlit("presence_present");
        reveal_strlit("presence_out_of_working_hour");
        reveal_strlit("presence_absent");
        reveal_strlit("presence_archive");
        reveal_strlit("presence_undetermined");
        assert("presence_present"@.len() != "presence_out_of_working_hour"@.len());
        assert("presence_present"@.len() != "presence_absent"@.len());
        assert("presence_present"@[9] != "presence_archive"@[9]);
        assert("presence_present"@.len() != "presence_undetermined"@.len());
        assert("presence_out_of_working_hour"@.len() != "presence_absent"@.len());
        assert("presence_out_of_working_hour"@.len() != "presence_archive"@.len());
        assert("presence_out_of_working_hour"@.len() != "presence_undetermined"@.len());
        assert("presence_absent"@.len() != "presence_archive"@.len());
        assert("presence_absent"@.len() != "presence_undetermined"@.len());
        assert("presence_archive"@.len() != "presence_undetermined"@.len());
    }

    /// Law: each value is shown under its Odoo label and stored under its
    /// Odoo key (PresencePresent as "presence_present", PresenceOutOfWorkingHour as "presence_out_of_working_hour", PresenceAbsent as "presence_absent", PresenceArchive as "presence_archive", PresenceUndetermined as "presence_undetermined"), and a key reads back as exactly the value
    /// stored under it.
    pub proof fn lemma_labels_and_keys()
        ensures
            HrIconDisplay::PresencePresent.spec_display() == "Present"@,
            HrIconDisplay::PresencePresent.spec_selection_key() == "presence_present"@,
            HrIconDisplay::PresenceOutOfWorkingHour.spec_display() == "Off-Hours"@,
            HrIconDisplay::PresenceOutOfWorkingHour.spec_selection_key() == "presence_out_of_working_hour"@,
            HrIconDisplay::PresenceAbsent.spec_display() == "Absent"@,
            HrIconDisplay::PresenceAbsent.spec_selection_key() == "presence_absent"@,
            HrIconDisplay::PresenceArchive.spec_display() == "Archived"@,
            HrIconDisplay::PresenceArchive.spec_selection_key() == "presence_archive"@,
            HrIconDisplay::PresenceUndetermined.spec_display() == "Undetermined"@,
            HrIconDisplay::PresenceUndetermined.spec_selection_key() == "presence_undetermined"@,
            forall|key: Seq<char>, v: HrIconDisplay|
                HrIconDisplay::spec_from_selection_key(key) == Some(v) <==> key == v.spec_selection_key(),
    {
        reveal_strlit("presence_present");
        reveal_strlit("presence_out_of_working_hour");
        reveal_strlit("presence_absent");
        reveal_strlit("presence_archive");
        reveal_strlit("presence_undetermined");
        assert forall|key: Seq<char>, v: HrIconDisplay|
            HrIconDisplay::spec_from_selection_key(key) == Some(v) <==> key == v.spec_selection_key() by {
            v.lemma_selection_key_roundtrip();
        }
    }
}

/// Where an employee works.
#[derive(Debug, Clone, Copy, PartialEq, Eq, Structural, PartialOrd, Ord, Hash)]
pub enum WorkLocationType {
    Home,
    Office,
    Other,
}

impl WorkLocationType {
    /// The position of the value in declaration order.
    pub open spec fn spec_position(self) -> int {
        match self {
            WorkLocationType::Home => 0,
            WorkLocationType::Office => 1,
            WorkLocationType::Other => 2,
        }
    }

    /// The labels that Odoo shows, in declaration order.
    pub open spec fn spec_labels() -> Seq<Seq<char>> {
        seq!["Home"@, "Office"@, "Other"@]
    }

    /// The label that Odoo shows for the value.
    pub open spec fn spec_display(self) -> Seq<char> {
        WorkLocationType::spec_labels()[self.spec_position()]
    }

    /// The key under which Odoo stores the value.
    pub open spec fn spec_selection_key(self) -> Seq<char> {
        match self {
            WorkLocationType::Home => "home"@,
            WorkLocationType::Office => "office"@,
            WorkLocationType::Other => "other"@,
        }
    }

    /// The value stored under `key`, if any.
    pub open spec fn spec_from_selection_key(key: Seq<char>) -> Option<WorkLocationType> {
        if key == "home"@ {
            Some(WorkLocationType::Home)
        } else if key == "office"@ {
            Some(WorkLocationType::Office)
        } else if key == "other"@ {
            Some(WorkLocationType::Other)
        } else {
            None
        }
    }

    /// The position of the value in declaration order.
    fn position(&self) -> (res: usize)
        ensures
            res == self.spec_position(),
            res < 3,
    {
        match self {
            WorkLocationType::Home => 0,
            WorkLocationType::Office => 1,
            WorkLocationType::Other => 2,
        }
    }

    /// The label that Odoo shows for the value.
    pub fn to_display_string(&self) -> (res: String)
        ensures
            res@ == self.spec_display(),
    {
        let labels: [&str; 3] = ["Home", "Office", "Other"];
        assert(labels@.map_values(|s: &str| s@) =~= WorkLocationType::spec_labels());
        labels[self.position()].to_owned()
    }

    /// The key under which Odoo stores the value.
    pub fn selection_key(&self) -> (res: &'static str)
        ensures
            res@ == self.spec_selection_key(),
    {
        match self {
            WorkLocationType::Home => "home",
            WorkLocationType::Office => "office",
            WorkLocationType::Other => "other",
        }
    }

    /// The value stored under `key`, if any.
    pub fn from_selection_key(key: &str) -> (res: Option<WorkLocationType>)
        ensures
            res == WorkLocationType::spec_from_selection_key(key@),
    {
        if text_is(key, "home") {
            Some(WorkLocationType::Home)
        } else if text_is(key, "office") {
            Some(WorkLocationType::Office)
        } else if text_is(key, "other") {
            Some(WorkLocationType::Other)
        } else {
            None
        }
    }

    /// Law: the value stored under a value's key is that value, so
    /// values are written and read back unchanged.
    pub proof fn lemma_selection_key_roundtrip(self)
        ensures
            WorkLocationType::spec_from_selection_key(self.spec_selection_key()) == Some(self),
    {
        reveal_strlit("home");
        reveal_strlit("office");
        reveal_strlit("other");
        assert("home"@.len() != "office"@.len());
        assert("home"@.len() != "other"@.len());
        assert("office"@.len() != "other"@.len());
    }

    /// Law: each value is shown under its Odoo label and stored under its
    /// Odoo key (Home as "home", Office as "office", Other as "other"), and a key reads back as exactly the value
    /// stored under it.
    pub proof fn lemma_labels_and_keys()
        ensures
            WorkLocationType::Home.spec_display() == "Home"@,
            WorkLocationType::Home.spec_selection_key() == "home"@,
            WorkLocationType::Office.spec_display() == "Office"@,
            WorkLocationType::Office.spec_selection_key() == "office"@,
            WorkLocationType::Other.spec_display() == "Other"@,
            WorkLocationType::Other.spec_selection_key() == "other"@,
            forall|key: Seq<char>, v: WorkLocationType|
                WorkLocationType::spec_from_selection_key(key) == Some(v) <==> key == v.spec_selection_key(),
    {
        reveal_strlit("home");
        reveal_strlit("office");
        reveal_strlit("other");
        assert forall|key: Seq<char>, v: WorkLocationType|
            WorkLocationType::spec_from_selection_key(key) == Some(v) <==> key == v.spec_selection_key() by {
            v.lemma_selection_key_roundtrip();
        }
    }
}

/// An employee as it is read from Odoo 18.
#[derive(Debug, Clone)]
pub struct HrEmployeeFromOdoo18 {
    pub id: u64,
    pub version_id: Many2OneRepr,
    pub current_version_id: Option<Many2OneRepr>,
    pub current_date_version: Option<String>,
    pub version_ids: Vec<u64>,
    pub versions_count: u64,
    pub hr_presence_state: Option<HrPresenceState>,
    pub hr_icon_display: Option<HrIconDisplay>,
    pub show_hr_icon_display: bool,
    pub newly_hired: bool,
    pub mobile_phone: Option<String>,
    pub work_phone: Option<String>,
    pub work_email: Option<String>,
    pub legal_name: Option<String>,
    pub private_phone: Option<String>,
    pub private_email: Option<String>,
    pub lang: Option<String>,
    pub place_of_birth: Option<Many2OneRepr>,
    pub birthday: Option<String>,
    pub birthday_public_display: bool,
    pub birthday_public_display_string: Option<String>,
    pub permit_no: Option<String>,
    pub visa_no: Option<String>,
    pub visa_expire: Option<String>,
    pub work_permit_expiration_date: Option<String>,
    pub has_work_permit: Option<String>,
    pub work_permit_scheduled_activity: bool,
    pub work_permit_name: Option<String>,
    pub certificate: Option<String>,
    pub study_field: Option<String>,
    pub study_school: Option<String>,
    pub emergency_contact: Option<String>,
    pub emergency_phone: Option<String>,
    pub work_location_name: Option<String>,
    pub work_location_type: Option<WorkLocationType>,
}

/// An employee as it is written to Odoo 19.
#[derive(Debug, Clone)]
pub struct HrEmployeeToOdoo19 {
    pub version_id: u64,
    pub current_version_id: Option<u64>,
    pub current_date_version: Option<String>,
    pub version_ids: Vec<u64>,
    pub versions_count: u64,
    pub hr_presence_state: Option<HrPresenceState>,
    pub hr_icon_display: Option<HrIconDisplay>,
    pub show_hr_icon_display: bool,
    pub newly_hired: bool,
    pub mobile_phone: Option<String>,
    pub work_phone: Option<String>,
    pub work_email: Option<String>,
    pub legal_name: Option<String>,
    pub private_phone: Option<String>,
    pub private_email: Option<String>,
    pub lang: Option<String>,
    pub place_of_birth: Option<u64>,
    pub birthday: Option<String>,
    pub birthday_public_display: bool,
    pub birthday_public_display_string: Option<String>,
    pub permit_no: Option<String>,
    pub visa_no: Option<String>,
    pub visa_expire: Option<String>,
    pub work_permit_expiration_date: Option<String>,
    pub has_work_permit: Option<String>,
    pub work_permit_scheduled_activity: bool,
    pub work_permit_name: Option<String>,
    pub certificate: Option<String>,
    pub study_field: Option<String>,
    pub study_school: Option<String>,
    pub emergency_contact: Option<String>,
    pub emergency_phone: Option<String>,
    pub work_location_name: Option<String>,
    pub work_location_type: Option<WorkLocationType>,
}

} // verus!
