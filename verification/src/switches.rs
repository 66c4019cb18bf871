use crate::keys::LogicalKey;
use crate::stats::{ButtonStats, StatsModel};
use crate::time::Timestamp;
use vstd::prelude::*;

verus! {

/// The switch installed for a key, as a value.
pub struct SwitchModel {
    pub switch_model_id: Seq<char>,
    pub stats: StatsModel,
    pub last_replaced_at: Option<Timestamp>,
}

impl SwitchModel {
    /// The record made for a key on its first observation: an unknown model
    /// with no wear.
    pub open spec fn unknown() -> SwitchModel {
        SwitchModel {
            switch_model_id: "generic_unknown"@,
            stats: StatsModel::zero(),
            last_replaced_at: None,
        }
    }

    /// A switch of the given model put in at `now`, with no wear.
    pub open spec fn installed(model_id: Seq<char>, now: Timestamp) -> SwitchModel {
        SwitchModel {
            switch_model_id: model_id,
            stats: StatsModel::zero(),
            last_replaced_at: Some(now),
        }
    }
}

/// The physical switch currently installed for a key and its wear.
#[derive(Debug)]
pub struct SwitchData {
    pub switch_model_id: String,
    pub stats: ButtonStats,
    pub last_replaced_at: Option<Timestamp>,
}

impl View for SwitchData {
    type V = SwitchModel;

    open spec fn view(&self) -> SwitchModel {
        SwitchModel {
            switch_model_id: self.switch_model_id@,
            stats: self.stats@,
            last_replaced_at: self.last_replaced_at,
        }
    }
}

impl Clone for SwitchData {
    fn clone(&self) -> (d: SwitchData)
        ensures
            d == *self,
    {
        SwitchData {
            switch_model_id: self.switch_model_id.clone(),
            stats: self.stats,
            last_replaced_at: self.last_replaced_at,
        }
    }
}

impl SwitchData {
    /// A record without content, to stand in a place while its record is
    /// worked on.
    pub fn placeholder() -> (d: SwitchData)
        ensures
            d@ == (SwitchModel {
                switch_model_id: Seq::empty(),
                stats: StatsModel::zero(),
                last_replaced_at: None,
            }),
    {
        SwitchData {
            switch_model_id: String::new(),
            stats: ButtonStats::default(),
            last_replaced_at: None,
        }
    }

    /// The record made for a key on its first observation.
    pub fn unknown() -> (d: SwitchData)
        ensures
            d@ == SwitchModel::unknown(),
    {
        SwitchData {
            switch_model_id: "generic_unknown".to_owned(),
            stats: ButtonStats::default(),
            last_replaced_at: None,
        }
    }
}

/// Why an entry was written to the switch history.
#[derive(Debug, Clone, Copy, PartialEq, Eq, Structural)]
pub enum HistoryEvent {
    Replace,
    Reset,
    ManualEdit,
}

impl HistoryEvent {
    /// The event's name as it is shown and stored.
    pub open spec fn name(self) -> Seq<char> {
        match self {
            HistoryEvent::Replace => "Replace"@,
            HistoryEvent::Reset => "Reset"@,
            HistoryEvent::ManualEdit => "ManualEdit"@,
        }
    }

    /// The event's name as it is shown and stored.
    pub fn to_string(&self) -> (s: String)
        ensures
            s@ == self.name(),
    {
        match self {
            HistoryEvent::Replace => "Replace".to_owned(),
            HistoryEvent::Reset => "Reset".to_owned(),
            HistoryEvent::ManualEdit => "ManualEdit".to_owned(),
        }
    }
}

/// One entry of the switch history, as a value.
pub struct HistoryModel {
    pub date: Timestamp,
    pub key: LogicalKey,
    pub old_model_id: Seq<char>,
    pub new_model_id: Seq<char>,
    pub previous_stats: StatsModel,
    pub event_type: HistoryEvent,
}

/// An audit record of what was done to a key's switch.
#[derive(Debug)]
pub struct SwitchHistoryEntry {
    pub date: Timestamp,
    pub key: LogicalKey,
    pub old_model_id: String,
    pub new_model_id: String,
    pub previous_stats: ButtonStats,
    pub event_type: HistoryEvent,
}

impl View for SwitchHistoryEntry {
    type V = HistoryModel;

    open spec fn view(&self) -> HistoryModel {
        HistoryModel {
            date: self.date,
            key: self.key,
            old_model_id: self.old_model_id@,
            new_model_id: self.new_model_id@,
            previous_stats: self.previous_stats@,
            event_type: self.event_type,
        }
    }
}

impl Clone for SwitchHistoryEntry {
    fn clone(&self) -> (e: SwitchHistoryEntry)
        ensures
            e == *self,
    {
        SwitchHistoryEntry {
            date: self.date,
            key: self.key,
            old_model_id: self.old_model_id.clone(),
            new_model_id: self.new_model_id.clone(),
            previous_stats: self.previous_stats,
            event_type: self.event_type,
        }
    }
}

/// A rated switch model that can be installed.
#[derive(Debug)]
pub struct SwitchModelInfo {
    pub id: String,
    pub name: String,
    pub manufacturer: String,
    pub rated_lifespan_presses: u64,
}

/// A rated switch model, as a value.
pub struct SwitchModelInfoModel {
    pub id: Seq<char>,
    pub name: Seq<char>,
    pub manufacturer: Seq<char>,
    pub rated_lifespan_presses: u64,
}

impl View for SwitchModelInfo {
    type V = SwitchModelInfoModel;

    open spec fn view(&self) -> SwitchModelInfoModel {
        SwitchModelInfoModel {
            id: self.id@,
            name: self.name@,
            manufacturer: self.manufacturer@,
            rated_lifespan_presses: self.rated_lifespan_presses,
        }
    }
}

impl Clone for SwitchModelInfo {
    fn clone(&self) -> (m: SwitchModelInfo)
        ensures
            m == *self,
    {
        SwitchModelInfo {
            id: self.id.clone(),
            name: self.name.clone(),
            manufacturer: self.manufacturer.clone(),
            rated_lifespan_presses: self.rated_lifespan_presses,
        }
    }
}

/// The catalogue of known switch models, in the order in which it is shown.
pub open spec fn default_switch_models() -> Seq<SwitchModelInfoModel> {
    seq![
        SwitchModelInfoModel {
            id: "omron_d2mv_01_1c3"@,
            name: "D2MV-01-1C3 (50g)"@,
            manufacturer: "Omron"@,
            rated_lifespan_presses: 10_000_000,
        },
        SwitchModelInfoModel {
            id: "omron_d2mv_01_1c2"@,
            name: "D2MV-01-1C2 (25g)"@,
            manufacturer: "Omron"@,
            rated_lifespan_presses: 10_000_000,
        },
        SwitchModelInfoModel {
            id: "omron_v_10_1a4"@,
            name: "V-10-1A4 (100g)"@,
            manufacturer: "Omron"@,
            rated_lifespan_presses: 50_000_000,
        },
        SwitchModelInfoModel {
            id: "generic_unknown"@,
            name: "Generic / Unknown"@,
            manufacturer: "Generic"@,
            rated_lifespan_presses: 1_000_000,
        },
    ]
}

/// The catalogue of known switch models.
pub fn get_default_switch_models() -> (models: Vec<SwitchModelInfo>)
    ensures
        models@.map_values(|m: SwitchModelInfo| m@) == default_switch_models(),
{
    let mut models: Vec<SwitchModelInfo> = Vec::new();
    models.push(
        SwitchModelInfo {
            id: "omron_d2mv_01_1c3".to_owned(),
            name: "D2MV-01-1C3 (50g)".to_owned(),
            manufacturer: "Omron".to_owned(),
            rated_lifespan_presses: 10_000_000,
        },
    );
    models.push(
        SwitchModelInfo {
            id: "omron_d2mv_01_1c2".to_owned(),
            name: "D2MV-01-1C2 (25g)".to_owned(),
            manufacturer: "Omron".to_owned(),
            rated_lifespan_presses: 10_000_000,
        },
    );
    models.push(
        SwitchModelInfo {
            id: "omron_v_10_1a4".to_owned(),
            name: "V-10-1A4 (100g)".to_owned(),
            manufacturer: "Omron".to_owned(),
            rated_lifespan_presses: 50_000_000,
        },
    );
    models.push(
        SwitchModelInfo {
            id: "generic_unknown".to_owned(),
            name: "Generic / Unknown".to_owned(),
            manufacturer: "Generic".to_owned(),
            rated_lifespan_presses: 1_000_000,
        },
    );
    assert(models@.map_values(|m: SwitchModelInfo| m@) =~= default_switch_models());
    models
}

} // verus!
