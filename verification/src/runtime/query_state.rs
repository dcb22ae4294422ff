//! The states that the coordinator reports of a query.

use crate::text::str_eq;
use vstd::prelude::*;
use vstd::string::*;

verus! {

/// The state of a query at the coordinator.
#[derive(Clone, Copy, Debug, PartialEq, Eq, Structural, Hash)]
pub enum QueryState {
    Registered,
    Optimizing,
    MarkedForDeployment,
    MarkedForRedeployment,
    MarkedForMigration,
    Deployed,
    Redeployed,
    Running,
    Migrating,
    MarkedForHardStop,
    MarkedForSoftStop,
    SoftStopTriggered,
    SoftStopCompleted,
    Stopped,
    MarkedForFailure,
    Failed,
    Restarting,
    MigrationCompleted,
    Explained,
}

impl QueryState {
    /// The name under which the coordinator reports the state.
    pub open spec fn wire_name(self) -> Seq<char> {
        match self {
            QueryState::Registered => "REGISTERED"@,
            QueryState::Optimizing => "OPTIMIZING"@,
            QueryState::MarkedForDeployment => "MARKED_FOR_DEPLOYMENT"@,
            QueryState::MarkedForRedeployment => "MARKED_FOR_REDEPLOYMENT"@,
            QueryState::MarkedForMigration => "MARKED_FOR_MIGRATION"@,
            QueryState::Deployed => "DEPLOYED"@,
            QueryState::Redeployed => "REDEPLOYED"@,
            QueryState::Running => "RUNNING"@,
            QueryState::Migrating => "MIGRATING"@,
            QueryState::MarkedForHardStop => "MARKED_FOR_HARD_STOP"@,
            QueryState::MarkedForSoftStop => "MARKED_FOR_SOFT_STOP"@,
            QueryState::SoftStopTriggered => "SOFT_STOP_TRIGGERED"@,
            QueryState::SoftStopCompleted => "SOFT_STOP_COMPLETED"@,
            QueryState::Stopped => "STOPPED"@,
            QueryState::MarkedForFailure => "MARKED_FOR_FAILURE"@,
            QueryState::Failed => "FAILED"@,
            QueryState::Restarting => "RESTARTING"@,
            QueryState::MigrationCompleted => "MIGRATION_COMPLETED"@,
            QueryState::Explained => "EXPLAINED"@,
        }
    }

    /// The name of the state as it is shown.
    pub open spec fn name(self) -> Seq<char> {
        match self {
            QueryState::Registered => "Registered"@,
            QueryState::Optimizing => "Optimizing"@,
            QueryState::MarkedForDeployment => "MarkedForDeployment"@,
            QueryState::MarkedForRedeployment => "MarkedForRedeployment"@,
            QueryState::MarkedForMigration => "MarkedForMigration"@,
            QueryState::Deployed => "Deployed"@,
            QueryState::Redeployed => "Redeployed"@,
            QueryState::Running => "Running"@,
            QueryState::Migrating => "Migrating"@,
            QueryState::MarkedForHardStop => "MarkedForHardStop"@,
            QueryState::MarkedForSoftStop => "MarkedForSoftStop"@,
            QueryState::SoftStopTriggered => "SoftStopTriggered"@,
            QueryState::SoftStopCompleted => "SoftStopCompleted"@,
            QueryState::Stopped => "Stopped"@,
            QueryState::MarkedForFailure => "MarkedForFailure"@,
            QueryState::Failed => "Failed"@,
            QueryState::Restarting => "Restarting"@,
            QueryState::MigrationCompleted => "MigrationCompleted"@,
            QueryState::Explained => "Explained"@,
        }
    }

    /// The name of the state as it is shown.
    pub fn to_string(&self) -> (r: String)
        ensures
            r@ == self.name(),
    {
        match self {
            QueryState::Registered => String::from_str("Registered"),
            QueryState::Optimizing => String::from_str("Optimizing"),
            QueryState::MarkedForDeployment => String::from_str("MarkedForDeployment"),
            QueryState::MarkedForRedeployment => String::from_str("MarkedForRedeployment"),
            QueryState::MarkedForMigration => String::from_str("MarkedForMigration"),
            QueryState::Deployed => String::from_str("Deployed"),
            QueryState::Redeployed => String::from_str("Redeployed"),
            QueryState::Running => String::from_str("Running"),
            QueryState::Migrating => String::from_str("Migrating"),
            QueryState::MarkedForHardStop => String::from_str("MarkedForHardStop"),
            QueryState::MarkedForSoftStop => String::from_str("MarkedForSoftStop"),
            QueryState::SoftStopTriggered => String::from_str("SoftStopTriggered"),
            QueryState::SoftStopCompleted => String::from_str("SoftStopCompleted"),
            QueryState::Stopped => String::from_str("Stopped"),
            QueryState::MarkedForFailure => String::from_str("MarkedForFailure"),
            QueryState::Failed => String::from_str("Failed"),
            QueryState::Restarting => String::from_str("Restarting"),
            QueryState::MigrationCompleted => String::from_str("MigrationCompleted"),
            QueryState::Explained => String::from_str("Explained"),
        }
    }
}

/// The state that the coordinator reports under the given name, if there
/// is one.
pub open spec fn parse_query_state(text: Seq<char>) -> Option<QueryState> {
    if text == "REGISTERED"@ {
        Some(QueryState::Registered)
    }     else if text == "OPTIMIZING"@ {
        Some(QueryState::Optimizing)
    }     else if text == "MARKED_FOR_DEPLOYMENT"@ {
        Some(QueryState::MarkedForDeployment)
    }     else if text == "MARKED_FOR_REDEPLOYMENT"@ {
        Some(QueryState::MarkedForRedeployment)
    }     else if text == "MARKED_FOR_MIGRATION"@ {
        Some(QueryState::MarkedForMigration)
    }     else if text == "DEPLOYED"@ {
        Some(QueryState::Deployed)
    }     else if text == "REDEPLOYED"@ {
        Some(QueryState::Redeployed)
    }     else if text == "RUNNING"@ {
        Some(QueryState::Running)
    }     else if text == "MIGRATING"@ {
        Some(QueryState::Migrating)
    }     else if text == "MARKED_FOR_HARD_STOP"@ {
        Some(QueryState::MarkedForHardStop)
    }     else if text == "MARKED_FOR_SOFT_STOP"@ {
        Some(QueryState::MarkedForSoftStop)
    }     else if text == "SOFT_STOP_TRIGGERED"@ {
        Some(QueryState::SoftStopTriggered)
    }     else if text == "SOFT_STOP_COMPLETED"@ {
        Some(QueryState::SoftStopCompleted)
    }     else if text == "STOPPED"@ {
        Some(QueryState::Stopped)
    }     else if text == "MARKED_FOR_FAILURE"@ {
        Some(QueryState::MarkedForFailure)
    }     else if text == "FAILED"@ {
        Some(QueryState::Failed)
    }     else if text == "RESTARTING"@ {
        Some(QueryState::Restarting)
    }     else if text == "MIGRATION_COMPLETED"@ {
        Some(QueryState::MigrationCompleted)
    }     else if text == "EXPLAINED"@ {
        Some(QueryState::Explained)
    } else {
        None
    }
}

/// The characters of each name that a state is reported under.
proof fn reveal_wire_names()
    ensures
        "REGISTERED"@ == seq![
            'R', 'E', 'G', 'I', 'S', 'T', 'E', 'R', 'E', 'D',
        ],
        "OPTIMIZING"@ == seq![
            'O', 'P', 'T', 'I', 'M', 'I', 'Z', 'I', 'N', 'G',
        ],
        "MARKED_FOR_DEPLOYMENT"@ == seq![
            'M', 'A', 'R', 'K', 'E', 'D', '_', 'F', 'O', 'R', '_', 'D', 'E', 'P',
            'L', 'O', 'Y', 'M', 'E', 'N', 'T',
        ],
        "MARKED_FOR_REDEPLOYMENT"@ == seq![
            'M', 'A', 'R', 'K', 'E', 'D', '_', 'F', 'O', 'R', '_', 'R', 'E', 'D',
            'E', 'P', 'L', 'O', 'Y', 'M', 'E', 'N', 'T',
        ],
        "MARKED_FOR_MIGRATION"@ == seq![
            'M', 'A', 'R', 'K', 'E', 'D', '_', 'F', 'O', 'R', '_', 'M', 'I', 'G',
            'R', 'A', 'T', 'I', 'O', 'N',
        ],
        "DEPLOYED"@ == seq![
            'D', 'E', 'P', 'L', 'O', 'Y', 'E', 'D',
        ],
        "REDEPLOYED"@ == seq![
            'R', 'E', 'D', 'E', 'P', 'L', 'O', 'Y', 'E', 'D',
        ],
        "RUNNING"@ == seq![
            'R', 'U', 'N', 'N', 'I', 'N', 'G',
        ],
        "MIGRATING"@ == seq![
            'M', 'I', 'G', 'R', 'A', 'T', 'I', 'N', 'G',
        ],
        "MARKED_FOR_HARD_STOP"@ == seq![
            'M', 'A', 'R', 'K', 'E', 'D', '_', 'F', 'O', 'R', '_', 'H', 'A', 'R',
            'D', '_', 'S', 'T', 'O', 'P',
        ],
        "MARKED_FOR_SOFT_STOP"@ == seq![
            'M', 'A', 'R', 'K', 'E', 'D', '_', 'F', 'O', 'R', '_', 'S', 'O', 'F',
            'T', '_', 'S', 'T', 'O', 'P',
        ],
        "SOFT_STOP_TRIGGERED"@ == seq![
            'S', 'O', 'F', 'T', '_', 'S', 'T', 'O', 'P', '_', 'T', 'R', 'I', 'G',
            'G', 'E', 'R', 'E', 'D',
        ],
        "SOFT_STOP_COMPLETED"@ == seq![
            'S', 'O', 'F', 'T', '_', 'S', 'T', 'O', 'P', '_', 'C', 'O', 'M', 'P',
            'L', 'E', 'T', 'E', 'D',
        ],
        "STOPPED"@ == seq![
            'S', 'T', 'O', 'P', 'P', 'E', 'D',
        ],
        "MARKED_FOR_FAILURE"@ == seq![
            'M', 'A', 'R', 'K', 'E', 'D', '_', 'F', 'O', 'R', '_', 'F', 'A', 'I',
            'L', 'U', 'R', 'E',
        ],
        "FAILED"@ == seq![
            'F', 'A', 'I', 'L', 'E', 'D',
        ],
        "RESTARTING"@ == seq![
            'R', 'E', 'S', 'T', 'A', 'R', 'T', 'I', 'N', 'G',
        ],
        "MIGRATION_COMPLETED"@ == seq![
            'M', 'I', 'G', 'R', 'A', 'T', 'I', 'O', 'N', '_', 'C', 'O', 'M', 'P',
            'L', 'E', 'T', 'E', 'D',
        ],
        "EXPLAINED"@ == seq![
            'E', 'X', 'P', 'L', 'A', 'I', 'N', 'E', 'D',
        ],
{
    reveal_strlit("REGISTERED");
    reveal_strlit("OPTIMIZING");
    reveal_strlit("MARKED_FOR_DEPLOYMENT");
    reveal_strlit("MARKED_FOR_REDEPLOYMENT");
    reveal_strlit("MARKED_FOR_MIGRATION");
    reveal_strlit("DEPLOYED");
    reveal_strlit("REDEPLOYED");
    reveal_strlit("RUNNING");
    reveal_strlit("MIGRATING");
    reveal_strlit("MARKED_FOR_HARD_STOP");
    reveal_strlit("MARKED_FOR_SOFT_STOP");
    reveal_strlit("SOFT_STOP_TRIGGERED");
    reveal_strlit("SOFT_STOP_COMPLETED");
    reveal_strlit("STOPPED");
    reveal_strlit("MARKED_FOR_FAILURE");
    reveal_strlit("FAILED");
    reveal_strlit("RESTARTING");
    reveal_strlit("MIGRATION_COMPLETED");
    reveal_strlit("EXPLAINED");
    assert("REGISTERED"@ =~= seq![
        'R', 'E', 'G', 'I', 'S', 'T', 'E', 'R', 'E', 'D',
    ]);
    assert("OPTIMIZING"@ =~= seq![
        'O', 'P', 'T', 'I', 'M', 'I', 'Z', 'I', 'N', 'G',
    ]);
    assert("MARKED_FOR_DEPLOYMENT"@ =~= seq![
        'M', 'A', 'R', 'K', 'E', 'D', '_', 'F', 'O', 'R', '_', 'D', 'E', 'P',
        'L', 'O', 'Y', 'M', 'E', 'N', 'T',
    ]);
    assert("MARKED_FOR_REDEPLOYMENT"@ =~= seq![
        'M', 'A', 'R', 'K', 'E', 'D', '_', 'F', 'O', 'R', '_', 'R', 'E', 'D',
        'E', 'P', 'L', 'O', 'Y', 'M', 'E', 'N', 'T',
    ]);
    assert("MARKED_FOR_MIGRATION"@ =~= seq![
        'M', 'A', 'R', 'K', 'E', 'D', '_', 'F', 'O', 'R', '_', 'M', 'I', 'G',
        'R', 'A', 'T', 'I', 'O', 'N',
    ]);
    assert("DEPLOYED"@ =~= seq![
        'D', 'E', 'P', 'L', 'O', 'Y', 'E', 'D',
    ]);
    assert("REDEPLOYED"@ =~= seq![
        'R', 'E', 'D', 'E', 'P', 'L', 'O', 'Y', 'E', 'D',
    ]);
    assert("RUNNING"@ =~= seq![
        'R', 'U', 'N', 'N', 'I', 'N', 'G',
    ]);
    assert("MIGRATING"@ =~= seq![
        'M', 'I', 'G', 'R', 'A', 'T', 'I', 'N', 'G',
    ]);
    assert("MARKED_FOR_HARD_STOP"@ =~= seq![
        'M', 'A', 'R', 'K', 'E', 'D', '_', 'F', 'O', 'R', '_', 'H', 'A', 'R',
        'D', '_', 'S', 'T', 'O', 'P',
    ]);
    assert("MARKED_FOR_SOFT_STOP"@ =~= seq![
        'M', 'A', 'R', 'K', 'E', 'D', '_', 'F', 'O', 'R', '_', 'S', 'O', 'F',
        'T', '_', 'S', 'T', 'O', 'P',
    ]);
    assert("SOFT_STOP_TRIGGERED"@ =~= seq![
        'S', 'O', 'F', 'T', '_', 'S', 'T', 'O', 'P', '_', 'T', 'R', 'I', 'G',
        'G', 'E', 'R', 'E', 'D',
    ]);
    assert("SOFT_STOP_COMPLETED"@ =~= seq![
        'S', 'O', 'F', 'T', '_', 'S', 'T', 'O', 'P', '_', 'C', 'O', 'M', 'P',
        'L', 'E', 'T', 'E', 'D',
    ]);
    assert("STOPPED"@ =~= seq![
        'S', 'T', 'O', 'P', 'P', 'E', 'D',
    ]);
    assert("MARKED_FOR_FAILURE"@ =~= seq![
        'M', 'A', 'R', 'K', 'E', 'D', '_', 'F', 'O', 'R', '_', 'F', 'A', 'I',
        'L', 'U', 'R', 'E',
    ]);
    assert("FAILED"@ =~= seq![
        'F', 'A', 'I', 'L', 'E', 'D',
    ]);
    assert("RESTARTING"@ =~= seq![
        'R', 'E', 'S', 'T', 'A', 'R', 'T', 'I', 'N', 'G',
    ]);
    assert("MIGRATION_COMPLETED"@ =~= seq![
        'M', 'I', 'G', 'R', 'A', 'T', 'I', 'O', 'N', '_', 'C', 'O', 'M', 'P',
        'L', 'E', 'T', 'E', 'D',
    ]);
    assert("EXPLAINED"@ =~= seq![
        'E', 'X', 'P', 'L', 'A', 'I', 'N', 'E', 'D',
    ]);
}

/// Every state is found again under the name that the coordinator reports
/// it under.
pub proof fn lemma_parse_wire_name(state: QueryState)
    ensures
        parse_query_state(state.wire_name()) == Some(state),
{
    reveal_wire_names();
}

/// The name that no state is reported under.
#[derive(Debug)]
pub struct QueryStateParseError(String);

impl View for QueryStateParseError {
    type V = Seq<char>;

    closed spec fn view(&self) -> Seq<char> {
        self.0@
    }
}

impl QueryStateParseError {
    /// The message of the error.
    pub open spec fn message(text: Seq<char>) -> Seq<char> {
        "Unable to parse "@ + text + " as Query State. Unknown State!"@
    }

    /// The message of the error.
    pub fn to_string(&self) -> (r: String)
        ensures
            r@ == Self::message(self@),
    {
        let mut message = String::from_str("Unable to parse ");
        message.append(self.0.as_str());
        message.append(" as Query State. Unknown State!");
        message
    }
}

/// The state that is reported under the given name, or the name where no
/// state is reported under it.
pub fn parse_state(value: &str) -> (r: Result<QueryState, QueryStateParseError>)
    ensures
        match r {
            Ok(state) => parse_query_state(value@) == Some(state),
            Err(error) => parse_query_state(value@) is None && error@ == value@,
        },
{
    if str_eq(value, "REGISTERED") {
        Ok(QueryState::Registered)
    }     else if str_eq(value, "OPTIMIZING") {
        Ok(QueryState::Optimizing)
    }     else if str_eq(value, "MARKED_FOR_DEPLOYMENT") {
        Ok(QueryState::MarkedForDeployment)
    }     else if str_eq(value, "MARKED_FOR_REDEPLOYMENT") {
        Ok(QueryState::MarkedForRedeployment)
    }     else if str_eq(value, "MARKED_FOR_MIGRATION") {
        Ok(QueryState::MarkedForMigration)
    }     else if str_eq(value, "DEPLOYED") {
        Ok(QueryState::Deployed)
    }     else if str_eq(value, "REDEPLOYED") {
        Ok(QueryState::Redeployed)
    }     else if str_eq(value, "RUNNING") {
        Ok(QueryState::Running)
    }     else if str_eq(value, "MIGRATING") {
        Ok(QueryState::Migrating)
    }     else if str_eq(value, "MARKED_FOR_HARD_STOP") {
        Ok(QueryState::MarkedForHardStop)
    }     else if str_eq(value, "MARKED_FOR_SOFT_STOP") {
        Ok(QueryState::MarkedForSoftStop)
    }     else if str_eq(value, "SOFT_STOP_TRIGGERED") {
        Ok(QueryState::SoftStopTriggered)
    }     else if str_eq(value, "SOFT_STOP_COMPLETED") {
        Ok(QueryState::SoftStopCompleted)
    }     else if str_eq(value, "STOPPED") {
        Ok(QueryState::Stopped)
    }     else if str_eq(value, "MARKED_FOR_FAILURE") {
        Ok(QueryState::MarkedForFailure)
    }     else if str_eq(value, "FAILED") {
        Ok(QueryState::Failed)
    }     else if str_eq(value, "RESTARTING") {
        Ok(QueryState::Restarting)
    }     else if str_eq(value, "MIGRATION_COMPLETED") {
        Ok(QueryState::MigrationCompleted)
    }     else if str_eq(value, "EXPLAINED") {
        Ok(QueryState::Explained)
    } else {
        Err(QueryStateParseError(value.to_owned()))
    }
}

/// What the conversion gives is stated over views at the conversion itself:
/// no specification function can build the string that the result holds.
impl vstd::std_specs::convert::TryFromSpecImpl<&str> for QueryState {
    open spec fn obeys_try_from_spec() -> bool {
        false
    }

    open spec fn try_from_spec(value: &str) -> Result<Self, Self::Error> {
        arbitrary()
    }
}

impl TryFrom<&str> for QueryState {
    type Error = QueryStateParseError;

    fn try_from(value: &str) -> (r: Result<Self, Self::Error>)
        ensures
            match r {
                Ok(state) => parse_query_state(value@) == Some(state),
                Err(error) => parse_query_state(value@) is None && error@ == value@,
            },
    {
        parse_state(value)
    }
}

/// What the conversion gives is stated over views at the conversion itself:
/// no specification function can build the string that the result holds.
impl vstd::std_specs::convert::TryFromSpecImpl<String> for QueryState {
    open spec fn obeys_try_from_spec() -> bool {
        false
    }

    open spec fn try_from_spec(value: String) -> Result<Self, Self::Error> {
        arbitrary()
    }
}

impl TryFrom<String> for QueryState {
    type Error = QueryStateParseError;

    fn try_from(value: String) -> (r: Result<Self, Self::Error>)
        ensures
            match r {
                Ok(state) => parse_query_state(value@) == Some(state),
                Err(error) => parse_query_state(value@) is None && error@ == value@,
            },
    {
        parse_state(value.as_str())
    }
}

/// What the conversion gives is stated over views at the conversion itself:
/// no specification function can build the string that the result holds.
impl vstd::std_specs::convert::TryFromSpecImpl<&String> for QueryState {
    open spec fn obeys_try_from_spec() -> bool {
        false
    }

    open spec fn try_from_spec(value: &String) -> Result<Self, Self::Error> {
        arbitrary()
    }
}

impl TryFrom<&String> for QueryState {
    type Error = QueryStateParseError;

    fn try_from(value: &String) -> (r: Result<Self, Self::Error>)
        ensures
            match r {
                Ok(state) => parse_query_state(value@) == Some(state),
                Err(error) => parse_query_state(value@) is None && error@ == value@,
            },
    {
        parse_state(value.as_str())
    }
}

} // verus!
