//! Gaugemeisters and gauges in the ledger.

use vstd::prelude::*;
use crate::account::Account;
use crate::gauge;
use crate::instructions::create_gauge::{CreateGauge, GaugeCreateEvent};
use crate::instructions::create_gaugemeister::{CreateGaugemeister, GaugemeisterCreateEvent};
use crate::instructions::gauge_disable::{GaugeDisable, GaugeDisableEvent};
use crate::instructions::gauge_enable::{foreman_may_switch, GaugeEnable, GaugeEnableEvent};
use crate::instructions::set_gaugemeister_params::{
    SetGaugemeisterParams,
    SetGaugemeisterParamsEvent,
};
use crate::instructions::trigger_next_epoch::{TriggerNextEpoch, TriggerNextEpochEvent};
use crate::ledger::view::{
    get,
    has_key,
    lemma_get_at,
    lemma_push_account,
    lemma_put_account,
    put,
    LedgerView,
};
use crate::ledger::{find_account, Ledger, LedgerError};
use crate::locker::Locker;
use crate::pubkey::Pubkey;
use crate::quarry::{Operator, Quarry};
use crate::state::{Gauge, Gaugemeister};

verus! {

impl LedgerView {
    /// What creating the gaugemeister of `base` does, at the time
    /// `unix_timestamp`: the ledger afterwards and the record of the
    /// creation, or the reason for refusing. It is refused where the
    /// gaugemeister has no address or exists already, and where the gauge
    /// program refuses it.
    pub open spec fn create_gaugemeister(
        self,
        base: Pubkey,
        operator: Account<Operator>,
        locker: Account<Locker>,
        foreman: Pubkey,
        epoch_duration_seconds: u32,
        first_epoch_starts_at: u64,
        unix_timestamp: i64,
    ) -> Result<(LedgerView, GaugemeisterCreateEvent), LedgerError> {
        match Gaugemeister::spec_find_program_address(base) {
            None => Err(LedgerError::NoAddress),
            Some((key, bump)) => if has_key(self.gaugemeisters, key) {
                Err(LedgerError::AccountAlreadyExists)
            } else {
                let accounts = CreateGaugemeister {
                    gaugemeister: Account { key, data: arbitrary() },
                    base,
                    operator,
                    locker,
                };
                match accounts.spec_create(
                    bump,
                    foreman,
                    epoch_duration_seconds,
                    first_epoch_starts_at,
                    unix_timestamp,
                ) {
                    Err(code) => Err(LedgerError::Program(code)),
                    Ok(gaugemeister) => Ok(
                        (
                            LedgerView {
                                gaugemeisters: self.gaugemeisters.push(
                                    Account { key, data: gaugemeister },
                                ),
                                ..self
                            },
                            accounts.creation_event(foreman, first_epoch_starts_at),
                        ),
                    ),
                }
            },
        }
    }

    /// What creating the gauge of the gaugemeister at `gaugemeister` for
    /// `quarry` does: the ledger afterwards, with the address of the gauge
    /// and the record of the creation, or the reason for refusing. It is
    /// refused where the ledger lacks the gaugemeister, where the gauge has
    /// no address or exists already, and where the gauge program refuses it.
    pub open spec fn create_gauge(self, gaugemeister: Pubkey, quarry: Account<Quarry>) -> Result<
        (LedgerView, (Pubkey, GaugeCreateEvent)),
        LedgerError,
    > {
        match get(self.gaugemeisters, gaugemeister) {
            None => Err(LedgerError::AccountNotFound),
            Some(gaugemeister) => match Gauge::spec_find_program_address(
                gaugemeister.key,
                quarry.key,
            ) {
                None => Err(LedgerError::NoAddress),
                Some((key, _)) => if has_key(self.gauges, key) {
                    Err(LedgerError::AccountAlreadyExists)
                } else {
                    let accounts = CreateGauge {
                        gauge: Account { key, data: arbitrary() },
                        gaugemeister,
                        quarry,
                    };
                    match accounts.spec_validate() {
                        Err(code) => Err(LedgerError::Program(code)),
                        Ok(()) => Ok(
                            (
                                LedgerView {
                                    gauges: self.gauges.push(
                                        Account { key, data: accounts.created() },
                                    ),
                                    ..self
                                },
                                (key, accounts.creation_event()),
                            ),
                        ),
                    }
                },
            },
        }
    }

    /// What switching the gauge at `gauge` does, for `foreman`: the ledger
    /// afterwards, with the gauge disabled or not as `is_disabled` says, or
    /// the reason for refusing. It is refused where the ledger lacks the
    /// gaugemeister or the gauge, and where the gauge program refuses it.
    pub open spec fn switch_gauge(
        self,
        gaugemeister: Pubkey,
        gauge: Pubkey,
        foreman: Pubkey,
        is_disabled: bool,
    ) -> Result<LedgerView, LedgerError> {
        match (get(self.gaugemeisters, gaugemeister), get(self.gauges, gauge)) {
            (Some(gaugemeister), Some(gauge)) => match foreman_may_switch(
                &gaugemeister,
                &gauge,
                foreman,
            ) {
                Err(code) => Err(LedgerError::Program(code)),
                Ok(()) => Ok(
                    LedgerView {
                        gauges: put(
                            self.gauges,
                            Account { key: gauge.key, data: Gauge { is_disabled, ..gauge.data } },
                        ),
                        ..self
                    },
                ),
            },
            _ => Err(LedgerError::AccountNotFound),
        }
    }

    /// What triggering the next epoch of the gaugemeister at `gaugemeister`
    /// does, at the time `unix_timestamp`: the ledger afterwards and the
    /// record of the epoch, or the reason for refusing. It is refused where
    /// the ledger lacks the gaugemeister, and where the gauge program
    /// refuses it.
    pub open spec fn trigger_next_epoch(self, gaugemeister: Pubkey, unix_timestamp: i64) -> Result<
        (LedgerView, TriggerNextEpochEvent),
        LedgerError,
    > {
        match get(self.gaugemeisters, gaugemeister) {
            None => Err(LedgerError::AccountNotFound),
            Some(gaugemeister) => {
                let accounts = TriggerNextEpoch { gaugemeister };
                match (accounts.spec_validate(unix_timestamp), accounts.advanced()) {
                    (Err(code), _) => Err(LedgerError::Program(code)),
                    (Ok(()), None) => Err(
                        LedgerError::Program(crate::error::ErrorCode::IntegerOverflow),
                    ),
                    (Ok(()), Some(advanced)) => Ok(
                        (
                            LedgerView {
                                gaugemeisters: put(
                                    self.gaugemeisters,
                                    Account { key: gaugemeister.key, data: advanced },
                                ),
                                ..self
                            },
                            TriggerNextEpochEvent {
                                gaugemeister: gaugemeister.key,
                                current_rewards_epoch: advanced.current_rewards_epoch,
                                next_epoch_starts_at: advanced.next_epoch_starts_at,
                            },
                        ),
                    ),
                }
            },
        }
    }

    /// What setting the parameters of the gaugemeister at `gaugemeister`
    /// does, for `foreman`: the ledger afterwards and the record of the
    /// change, or the reason for refusing. It is refused where the ledger
    /// lacks the gaugemeister, and where the gauge program refuses it.
    pub open spec fn set_gaugemeister_params(
        self,
        gaugemeister: Pubkey,
        foreman: Pubkey,
        new_epoch_duration_seconds: u32,
        new_foreman: Pubkey,
    ) -> Result<(LedgerView, SetGaugemeisterParamsEvent), LedgerError> {
        match get(self.gaugemeisters, gaugemeister) {
            None => Err(LedgerError::AccountNotFound),
            Some(gaugemeister) => {
                let accounts = SetGaugemeisterParams { gaugemeister, foreman };
                match accounts.spec_validate() {
                    Err(code) => Err(LedgerError::Program(code)),
                    Ok(()) => Ok(
                        (
                            LedgerView {
                                gaugemeisters: put(
                                    self.gaugemeisters,
                                    Account {
                                        key: gaugemeister.key,
                                        data: Gaugemeister {
                                            epoch_duration_seconds: new_epoch_duration_seconds,
                                            foreman: new_foreman,
                                            ..gaugemeister.data
                                        },
                                    },
                                ),
                                ..self
                            },
                            SetGaugemeisterParamsEvent {
                                gaugemeister: gaugemeister.key,
                                prev_foreman: gaugemeister.data.foreman,
                                new_foreman,
                                prev_epoch_duration_seconds: gaugemeister.data.epoch_duration_seconds,
                                new_epoch_duration_seconds,
                            },
                        ),
                    ),
                }
            },
        }
    }
}

impl Ledger {
    /// Creates the gaugemeister of `base`, at the time `unix_timestamp` in
    /// seconds since the Unix epoch.
    pub fn create_gaugemeister(
        &mut self,
        base: Pubkey,
        operator: Account<Operator>,
        locker: Account<Locker>,
        foreman: Pubkey,
        epoch_duration_seconds: u32,
        first_epoch_starts_at: u64,
        unix_timestamp: i64,
    ) -> (result: Result<GaugemeisterCreateEvent, LedgerError>)
        requires
            old(self).wf(),
        ensures
            final(self).wf(),
            match old(self)@.create_gaugemeister(
                base,
                operator,
                locker,
                foreman,
                epoch_duration_seconds,
                first_epoch_starts_at,
                unix_timestamp,
            ) {
                Ok((after, event)) => result == Ok::<_, LedgerError>(event) && final(self)@
                    == after,
                Err(error) => result == Err::<GaugemeisterCreateEvent, _>(error) && final(self)@
                    == old(self)@,
            },
    {
        let (key, bump) = match Gaugemeister::find_program_address(&base) {
            Some(found) => found,
            None => return Err(LedgerError::NoAddress),
        };
        if find_account(&self.gaugemeisters, &key).is_some() {
            return Err(LedgerError::AccountAlreadyExists);
        }
        let mut accounts = CreateGaugemeister {
            gaugemeister: Account { key, data: Gaugemeister::default() },
            base,
            operator,
            locker,
        };
        match gauge::create_gaugemeister(
            &mut accounts,
            bump,
            foreman,
            epoch_duration_seconds,
            first_epoch_starts_at,
            unix_timestamp,
        ) {
            Err(code) => Err(LedgerError::Program(code)),
            Ok(event) => {
                proof {
                    lemma_push_account(self.gaugemeisters@, accounts.gaugemeister);
                }
                self.gaugemeisters.push(accounts.gaugemeister);
                Ok(event)
            },
        }
    }

    /// Creates the gauge of the gaugemeister at `gaugemeister` for `quarry`,
    /// and gives the gauge's address with the record of the creation.
    pub fn create_gauge(&mut self, gaugemeister: &Pubkey, quarry: Account<Quarry>) -> (result:
        Result<(Pubkey, GaugeCreateEvent), LedgerError>)
        requires
            old(self).wf(),
        ensures
            final(self).wf(),
            match old(self)@.create_gauge(*gaugemeister, quarry) {
                Ok((after, created)) => result == Ok::<_, LedgerError>(created) && final(self)@
                    == after,
                Err(error) => result == Err::<(Pubkey, GaugeCreateEvent), _>(error) && final(self)@
                    == old(self)@,
            },
    {
        let gaugemeister_at = match find_account(&self.gaugemeisters, gaugemeister) {
            Some(at) => at,
            None => return Err(LedgerError::AccountNotFound),
        };
        proof {
            lemma_get_at(self.gaugemeisters@, gaugemeister_at as int);
        }
        let gaugemeister = self.gaugemeisters[gaugemeister_at];
        let (key, _) = match Gauge::find_program_address(&gaugemeister.key, &quarry.key) {
            Some(found) => found,
            None => return Err(LedgerError::NoAddress),
        };
        if find_account(&self.gauges, &key).is_some() {
            return Err(LedgerError::AccountAlreadyExists);
        }
        let mut accounts = CreateGauge {
            gauge: Account { key, data: Gauge::default() },
            gaugemeister,
            quarry,
        };
        match gauge::create_gauge(&mut accounts) {
            Err(code) => Err(LedgerError::Program(code)),
            Ok(event) => {
                proof {
                    lemma_push_account(self.gauges@, accounts.gauge);
                }
                self.gauges.push(accounts.gauge);
                Ok((key, event))
            },
        }
    }

    /// Enables the gauge at `gauge`, for `foreman`.
    pub fn gauge_enable(&mut self, gaugemeister: &Pubkey, gauge: &Pubkey, foreman: Pubkey) -> (result:
        Result<GaugeEnableEvent, LedgerError>)
        requires
            old(self).wf(),
        ensures
            final(self).wf(),
            match old(self)@.switch_gauge(*gaugemeister, *gauge, foreman, false) {
                Ok(after) => result == Ok::<_, LedgerError>(
                    (GaugeEnableEvent { gaugemeister: *gaugemeister, gauge: *gauge, foreman }),
                ) && final(self)@ == after,
                Err(error) => result == Err::<GaugeEnableEvent, _>(error)
                    && final(self)@ == old(self)@,
            },
    {
        let found = (
            find_account(&self.gaugemeisters, gaugemeister),
            find_account(&self.gauges, gauge),
        );
        let (gaugemeister_at, gauge_at) = match found {
            (Some(gaugemeister_at), Some(gauge_at)) => (gaugemeister_at, gauge_at),
            _ => return Err(LedgerError::AccountNotFound),
        };
        proof {
            lemma_get_at(self.gaugemeisters@, gaugemeister_at as int);
            lemma_get_at(self.gauges@, gauge_at as int);
        }
        let mut accounts = GaugeEnable {
            gaugemeister: self.gaugemeisters[gaugemeister_at],
            gauge: self.gauges[gauge_at],
            foreman,
        };
        match gauge::gauge_enable(&mut accounts) {
            Err(code) => Err(LedgerError::Program(code)),
            Ok(event) => {
                proof {
                    lemma_put_account(self.gauges@, accounts.gauge);
                }
                self.gauges.set(gauge_at, accounts.gauge);
                Ok(event)
            },
        }
    }

    /// Disables the gauge at `gauge`, for `foreman`.
    pub fn gauge_disable(&mut self, gaugemeister: &Pubkey, gauge: &Pubkey, foreman: Pubkey) -> (result:
        Result<GaugeDisableEvent, LedgerError>)
        requires
            old(self).wf(),
        ensures
            final(self).wf(),
            match old(self)@.switch_gauge(*gaugemeister, *gauge, foreman, true) {
                Ok(after) => result == Ok::<_, LedgerError>(
                    (GaugeDisableEvent { gaugemeister: *gaugemeister, gauge: *gauge, foreman }),
                ) && final(self)@ == after,
                Err(error) => result == Err::<GaugeDisableEvent, _>(error)
                    && final(self)@ == old(self)@,
            },
    {
        let found = (
            find_account(&self.gaugemeisters, gaugemeister),
            find_account(&self.gauges, gauge),
        );
        let (gaugemeister_at, gauge_at) = match found {
            (Some(gaugemeister_at), Some(gauge_at)) => (gaugemeister_at, gauge_at),
            _ => return Err(LedgerError::AccountNotFound),
        };
        proof {
            lemma_get_at(self.gaugemeisters@, gaugemeister_at as int);
            lemma_get_at(self.gauges@, gauge_at as int);
        }
        let mut accounts = GaugeDisable {
            gaugemeister: self.gaugemeisters[gaugemeister_at],
            gauge: self.gauges[gauge_at],
            foreman,
        };
        match gauge::gauge_disable(&mut accounts) {
            Err(code) => Err(LedgerError::Program(code)),
            Ok(event) => {
                proof {
                    lemma_put_account(self.gauges@, accounts.gauge);
                }
                self.gauges.set(gauge_at, accounts.gauge);
                Ok(event)
            },
        }
    }

    /// Triggers the next epoch of the gaugemeister at `gaugemeister`, at the
    /// time `unix_timestamp` in seconds since the Unix epoch.
    pub fn trigger_next_epoch(&mut self, gaugemeister: &Pubkey, unix_timestamp: i64) -> (result:
        Result<TriggerNextEpochEvent, LedgerError>)
        requires
            old(self).wf(),
        ensures
            final(self).wf(),
            match old(self)@.trigger_next_epoch(*gaugemeister, unix_timestamp) {
                Ok((after, event)) => result == Ok::<_, LedgerError>(event) && final(self)@
                    == after,
                Err(error) => result == Err::<TriggerNextEpochEvent, _>(error) && final(self)@
                    == old(self)@,
            },
    {
        let gaugemeister_at = match find_account(&self.gaugemeisters, gaugemeister) {
            Some(at) => at,
            None => return Err(LedgerError::AccountNotFound),
        };
        proof {
            lemma_get_at(self.gaugemeisters@, gaugemeister_at as int);
        }
        let mut accounts = TriggerNextEpoch { gaugemeister: self.gaugemeisters[gaugemeister_at] };
        match gauge::trigger_next_epoch(&mut accounts, unix_timestamp) {
            Err(code) => Err(LedgerError::Program(code)),
            Ok(event) => {
                proof {
                    lemma_put_account(self.gaugemeisters@, accounts.gaugemeister);
                }
                self.gaugemeisters.set(gaugemeister_at, accounts.gaugemeister);
                Ok(event)
            },
        }
    }

    /// Sets the epoch duration and the foreman of the gaugemeister at
    /// `gaugemeister`, for `foreman`.
    pub fn set_gaugemeister_params(
        &mut self,
        gaugemeister: &Pubkey,
        foreman: Pubkey,
        new_epoch_duration_seconds: u32,
        new_foreman: Pubkey,
    ) -> (result: Result<SetGaugemeisterParamsEvent, LedgerError>)
        requires
            old(self).wf(),
        ensures
            final(self).wf(),
            match old(self)@.set_gaugemeister_params(
                *gaugemeister,
                foreman,
                new_epoch_duration_seconds,
                new_foreman,
            ) {
                Ok((after, event)) => result == Ok::<_, LedgerError>(event) && final(self)@
                    == after,
                Err(error) => result == Err::<SetGaugemeisterParamsEvent, _>(error) && final(self)@
                    == old(self)@,
            },
    {
        let gaugemeister_at = match find_account(&self.gaugemeisters, gaugemeister) {
            Some(at) => at,
            None => return Err(LedgerError::AccountNotFound),
        };
        proof {
            lemma_get_at(self.gaugemeisters@, gaugemeister_at as int);
        }
        let mut accounts = SetGaugemeisterParams {
            gaugemeister: self.gaugemeisters[gaugemeister_at],
            foreman,
        };
        match gauge::set_gaugemeister_params(&mut accounts, new_epoch_duration_seconds, new_foreman) {
            Err(code) => Err(LedgerError::Program(code)),
            Ok(event) => {
                proof {
                    lemma_put_account(self.gaugemeisters@, accounts.gaugemeister);
                }
                self.gaugemeisters.set(gaugemeister_at, accounts.gaugemeister);
                Ok(event)
            },
        }
    }
}

} // verus!
