use crate::bindings::bind_key;
use crate::config::{AppConfig, ConfigModel};
use crate::key_map::{
    has_key, index_of, lemma_map_entries, lemma_map_entries_upsert, upsert, KeyMap,
};
use crate::keys::LogicalKey;
use crate::profile::{ButtonMapModel, ProfileModel, UserProfile};
use crate::stats::{ButtonStats, StatsModel};
use crate::switches::{HistoryEvent, HistoryModel, SwitchData, SwitchHistoryEntry, SwitchModel};
use crate::time::Timestamp;
use vstd::prelude::*;

verus! {

/// An intent sent to the monitor, as a value.
pub enum CommandModel {
    UpdateConfig(ConfigModel),
    UpdateMapping(Seq<char>, Seq<(LogicalKey, u32)>),
    SetKeyBinding { key: LogicalKey, button: u32 },
    ReplaceSwitch { key: LogicalKey, new_model_id: Seq<char> },
    ResetStats { key: LogicalKey },
    SetLastReplacedDate { key: LogicalKey, date: Timestamp },
    Shutdown,
    ForceSave,
}

/// An intent sent to the monitor. No command answers its sender: what it
/// did shows in the next snapshot.
#[derive(Debug)]
pub enum MonitorCommand {
    UpdateConfig(AppConfig),
    UpdateMapping(String, KeyMap<u32>),
    SetKeyBinding { key: LogicalKey, button: u32 },
    ReplaceSwitch { key: LogicalKey, new_model_id: String },
    ResetStats { key: LogicalKey },
    SetLastReplacedDate { key: LogicalKey, date: Timestamp },
    Shutdown,
    ForceSave,
}

impl View for MonitorCommand {
    type V = CommandModel;

    open spec fn view(&self) -> CommandModel {
        match self {
            MonitorCommand::UpdateConfig(cfg) => CommandModel::UpdateConfig(cfg@),
            MonitorCommand::UpdateMapping(name, bindings) => CommandModel::UpdateMapping(
                name@,
                bindings@,
            ),
            MonitorCommand::SetKeyBinding { key, button } => CommandModel::SetKeyBinding {
                key: *key,
                button: *button,
            },
            MonitorCommand::ReplaceSwitch { key, new_model_id } => CommandModel::ReplaceSwitch {
                key: *key,
                new_model_id: new_model_id@,
            },
            MonitorCommand::ResetStats { key } => CommandModel::ResetStats { key: *key },
            MonitorCommand::SetLastReplacedDate { key, date } => CommandModel::SetLastReplacedDate {
                key: *key,
                date: *date,
            },
            MonitorCommand::Shutdown => CommandModel::Shutdown,
            MonitorCommand::ForceSave => CommandModel::ForceSave,
        }
    }
}

impl ProfileModel {
    /// The switch recorded for `key`; meaningful where there is one.
    pub open spec fn switch_of(self, key: LogicalKey) -> SwitchModel {
        self.switches[index_of(self.switches, key)].1
    }

    /// The history entry that audits what is done to `key`'s switch at `now`.
    pub open spec fn audit(
        self,
        key: LogicalKey,
        new_model_id: Seq<char>,
        event_type: HistoryEvent,
        now: Timestamp,
    ) -> HistoryModel {
        HistoryModel {
            date: now,
            key,
            old_model_id: self.switch_of(key).switch_model_id,
            new_model_id,
            previous_stats: self.switch_of(key).stats,
            event_type,
        }
    }

    /// A new switch of the given model is put in for `key`. A key that had a
    /// switch gets an audit entry with the old model and its wear; a key
    /// that had none gets its first record and no entry.
    pub open spec fn replace_switch(
        self,
        key: LogicalKey,
        new_model_id: Seq<char>,
        now: Timestamp,
    ) -> ProfileModel {
        ProfileModel {
            switches: upsert(self.switches, key, SwitchModel::installed(new_model_id, now)),
            switch_history: if has_key(self.switches, key) {
                self.switch_history.push(
                    self.audit(key, new_model_id, HistoryEvent::Replace, now),
                )
            } else {
                self.switch_history
            },
            ..self
        }
    }

    /// The wear of `key`'s switch is set back to nothing, with an audit
    /// entry; a key without a switch changes nothing.
    pub open spec fn reset_stats(self, key: LogicalKey, now: Timestamp) -> ProfileModel {
        if has_key(self.switches, key) {
            ProfileModel {
                switches: upsert(
                    self.switches,
                    key,
                    SwitchModel {
                        stats: StatsModel::zero(),
                        last_replaced_at: Some(now),
                        ..self.switch_of(key)
                    },
                ),
                switch_history: self.switch_history.push(
                    self.audit(
                        key,
                        self.switch_of(key).switch_model_id,
                        HistoryEvent::Reset,
                        now,
                    ),
                ),
                ..self
            }
        } else {
            self
        }
    }

    /// The day on which `key`'s switch was put in is corrected to `date`,
    /// with an audit entry; a key without a switch changes nothing.
    pub open spec fn set_last_replaced_date(
        self,
        key: LogicalKey,
        date: Timestamp,
        now: Timestamp,
    ) -> ProfileModel {
        if has_key(self.switches, key) {
            ProfileModel {
                switches: upsert(
                    self.switches,
                    key,
                    SwitchModel { last_replaced_at: Some(date), ..self.switch_of(key) },
                ),
                switch_history: self.switch_history.push(
                    self.audit(
                        key,
                        self.switch_of(key).switch_model_id,
                        HistoryEvent::ManualEdit,
                        now,
                    ),
                ),
                ..self
            }
        } else {
            self
        }
    }

    /// The profile after a command handled at `now`.
    pub open spec fn apply(self, cmd: CommandModel, now: Timestamp) -> ProfileModel {
        match cmd {
            CommandModel::UpdateConfig(cfg) => ProfileModel { config: cfg, ..self },
            CommandModel::UpdateMapping(name, bindings) => ProfileModel {
                mapping: ButtonMapModel { profile_name: name, bindings },
                ..self
            },
            CommandModel::SetKeyBinding { key, button } => ProfileModel {
                mapping: ButtonMapModel {
                    profile_name: self.mapping.profile_name,
                    bindings: bind_key(self.mapping.bindings, key, button),
                },
                ..self
            },
            CommandModel::ReplaceSwitch { key, new_model_id } => self.replace_switch(
                key,
                new_model_id,
                now,
            ),
            CommandModel::ResetStats { key } => self.reset_stats(key, now),
            CommandModel::SetLastReplacedDate { key, date } => self.set_last_replaced_date(
                key,
                date,
                now,
            ),
            CommandModel::Shutdown | CommandModel::ForceSave => self,
        }
    }
}

impl UserProfile {
    /// Puts a new switch of the given model in for `key`.
    pub fn replace_switch(&mut self, key: LogicalKey, new_model_id: String, now: Timestamp)
        ensures
            final(self)@ == old(self)@.replace_switch(key, new_model_id@, now),
    {
        let ghost before = self.switches@;
        let n = self.switches.len();
        proof {
            lemma_map_entries(before, |d: SwitchData| d@);
        }
        match self.switches.get(&key) {
            Some(switch) => {
                let entry = SwitchHistoryEntry {
                    date: now,
                    key,
                    old_model_id: switch.switch_model_id.clone(),
                    new_model_id: new_model_id.clone(),
                    previous_stats: switch.stats,
                    event_type: HistoryEvent::Replace,
                };
                assert(entry@ == old(self)@.audit(key, new_model_id@, HistoryEvent::Replace, now));
                self.switch_history.push(entry);
            },
            None => {},
        }
        let installed = SwitchData {
            switch_model_id: new_model_id,
            stats: ButtonStats::default(),
            last_replaced_at: Some(now),
        };
        self.switches.insert(key, installed);
        proof {
            lemma_map_entries_upsert(before, |d: SwitchData| d@, key, installed);
            assert(final(self)@.switch_history =~= old(self)@.replace_switch(
                key,
                new_model_id@,
                now,
            ).switch_history);
        }
    }

    /// Sets the wear of `key`'s switch back to nothing.
    pub fn reset_stats(&mut self, key: LogicalKey, now: Timestamp)
        ensures
            final(self)@ == old(self)@.reset_stats(key, now),
    {
        let ghost before = self.switches@;
        let n = self.switches.len();
        proof {
            lemma_map_entries(before, |d: SwitchData| d@);
        }
        let found = match self.switches.get(&key) {
            Some(switch) => Some(switch.clone()),
            None => None,
        };
        match found {
            Some(switch) => {
                let entry = SwitchHistoryEntry {
                    date: now,
                    key,
                    old_model_id: switch.switch_model_id.clone(),
                    new_model_id: switch.switch_model_id.clone(),
                    previous_stats: switch.stats,
                    event_type: HistoryEvent::Reset,
                };
                self.switch_history.push(entry);
                let fresh = SwitchData {
                    switch_model_id: switch.switch_model_id,
                    stats: ButtonStats::default(),
                    last_replaced_at: Some(now),
                };
                self.switches.insert(key, fresh);
                proof {
                    lemma_map_entries_upsert(before, |d: SwitchData| d@, key, fresh);
                    assert(final(self)@.switch_history =~= old(self)@.reset_stats(
                        key,
                        now,
                    ).switch_history);
                }
            },
            None => {},
        }
    }

    /// Corrects the day on which `key`'s switch was put in.
    pub fn set_last_replaced_date(&mut self, key: LogicalKey, date: Timestamp, now: Timestamp)
        ensures
            final(self)@ == old(self)@.set_last_replaced_date(key, date, now),
    {
        let ghost before = self.switches@;
        let n = self.switches.len();
        proof {
            lemma_map_entries(before, |d: SwitchData| d@);
        }
        let found = match self.switches.get(&key) {
            Some(switch) => Some(switch.clone()),
            None => None,
        };
        match found {
            Some(switch) => {
                let entry = SwitchHistoryEntry {
                    date: now,
                    key,
                    old_model_id: switch.switch_model_id.clone(),
                    new_model_id: switch.switch_model_id.clone(),
                    previous_stats: switch.stats,
                    event_type: HistoryEvent::ManualEdit,
                };
                self.switch_history.push(entry);
                let edited = SwitchData {
                    switch_model_id: switch.switch_model_id,
                    stats: switch.stats,
                    last_replaced_at: Some(date),
                };
                self.switches.insert(key, edited);
                proof {
                    lemma_map_entries_upsert(before, |d: SwitchData| d@, key, edited);
                    assert(final(self)@.switch_history =~= old(self)@.set_last_replaced_date(
                        key,
                        date,
                        now,
                    ).switch_history);
                }
            },
            None => {},
        }
    }

    /// Carries out what a command asks of the profile, at `now`.
    pub fn apply_command(&mut self, cmd: MonitorCommand, now: Timestamp)
        ensures
            final(self)@ == old(self)@.apply(cmd@, now),
    {
        match cmd {
            MonitorCommand::UpdateConfig(cfg) => {
                self.config = cfg;
            },
            MonitorCommand::UpdateMapping(name, bindings) => {
                self.mapping.profile_name = name;
                self.mapping.bindings = bindings;
            },
            MonitorCommand::SetKeyBinding { key, button } => {
                self.mapping.bindings.bind(key, button);
            },
            MonitorCommand::ReplaceSwitch { key, new_model_id } => {
                self.replace_switch(key, new_model_id, now);
            },
            MonitorCommand::ResetStats { key } => {
                self.reset_stats(key, now);
            },
            MonitorCommand::SetLastReplacedDate { key, date } => {
                self.set_last_replaced_date(key, date, now);
            },
            MonitorCommand::Shutdown => {},
            MonitorCommand::ForceSave => {},
        }
    }
}

} // verus!
