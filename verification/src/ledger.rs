//! The ledger: the singleton authority record, the record stores, and the
//! custodial treasury balance, together with every operation the sequencer
//! may submit. Each operation runs its access-control gate strictly before
//! any mutation, so a failed operation leaves the ledger exactly as it was.

use vstd::prelude::*;

use crate::types::ErrorCode;
use crate::types::Feedback;
use crate::types::Grievance;
use crate::types::GrievanceStatus;
use crate::types::Identity;
use crate::types::INITIAL_TAX_YEAR;
use crate::types::MAX_COMMENT_LEN;
use crate::types::MAX_DETAILS_LEN;
use crate::types::MAX_NAME_LEN;
use crate::types::Project;
use crate::types::ProjectStatus;
use crate::types::State;
use crate::types::TaxPayment;
use crate::types::WardTax;

verus! {

/// The whole persisted state of the system. Grievances, projects and
/// feedback are keyed by their position of creation, which never changes:
/// records are never deleted.
pub struct Ledger {
    /// The singleton authority record; `None` until bootstrap.
    pub authority: Option<State>,
    /// At most one entry per ward.
    pub ward_rates: Vec<WardTax>,
    /// At most one entry per `(user, year)` pair.
    pub payments: Vec<TaxPayment>,
    pub grievances: Vec<Grievance>,
    pub projects: Vec<Project>,
    pub feedbacks: Vec<Feedback>,
    /// The custodial pool: credited by tax payments, never debited here.
    pub treasury_balance: u64,
}

impl Ledger {
    /// Well-formedness: key uniqueness for the keyed stores, the declared
    /// byte bounds on every stored text, and validity of every feedback's
    /// project reference. Established by [`Ledger::new`] and preserved by
    /// every operation.
    pub open spec fn wf(self) -> bool {
        &&& forall|i: int, j: int|
            0 <= i < j < self.ward_rates@.len() ==> self.ward_rates@[i].ward
                != self.ward_rates@[j].ward
        &&& forall|i: int, j: int|
            0 <= i < j < self.payments@.len() ==> !(self.payments@[i].user
                == self.payments@[j].user && self.payments@[i].year == self.payments@[j].year)
        &&& forall|i: int|
            0 <= i < self.grievances@.len() ==> self.grievances@[i].details@.len()
                <= MAX_DETAILS_LEN
        &&& forall|i: int|
            0 <= i < self.projects@.len() ==> self.projects@[i].name@.len() <= MAX_NAME_LEN
                && self.projects@[i].details@.len() <= MAX_DETAILS_LEN
        &&& forall|i: int|
            0 <= i < self.feedbacks@.len() ==> self.feedbacks@[i].comment@.len()
                <= MAX_COMMENT_LEN && self.feedbacks@[i].project < self.projects@.len()
        &&& !self.initialized() ==> self.ward_rates@.len() == 0 && self.payments@.len() == 0
            && self.grievances@.len() == 0 && self.projects@.len() == 0 && self.feedbacks@.len()
            == 0 && self.treasury_balance == 0
    }

    /// Whether the one-time bootstrap has run.
    pub open spec fn initialized(self) -> bool {
        self.authority is Some
    }

    /// The government officer's identity.
    pub open spec fn govt(self) -> Identity
        recommends
            self.initialized(),
    {
        self.authority->0.admin_govt
    }

    /// Whether `caller` is the government officer.
    pub open spec fn is_govt(self, caller: Identity) -> bool {
        self.initialized() && self.authority->0.admin_govt == caller
    }

    /// Whether `caller` is the assigned municipal head.
    pub open spec fn is_head(self, caller: Identity) -> bool {
        self.initialized() && self.authority->0.admin_head == Some(caller)
    }

    /// Whether some rate is set for `ward`.
    pub open spec fn has_rate(self, ward: u16) -> bool {
        exists|i: int| 0 <= i < self.ward_rates@.len() && self.ward_rates@[i].ward == ward
    }

    /// The rate set for `ward` (meaningful only when one is set).
    pub open spec fn rate_for(self, ward: u16) -> u64
        recommends
            self.has_rate(ward),
    {
        self.ward_rates@[choose|i: int|
            0 <= i < self.ward_rates@.len() && self.ward_rates@[i].ward == ward].amount
    }

    /// Whether a grievance status update may proceed: the ledger is
    /// bootstrapped, the record exists, and the caller is the municipal
    /// head. Neither the record's current status nor the requested one
    /// enters into it.
    pub open spec fn grievance_update_allowed(self, caller: Identity, grievance: u64) -> bool {
        self.initialized() && grievance < self.grievances@.len() && self.is_head(caller)
    }

    /// Whether a project status update may proceed; the same rule as for
    /// grievances, against the project store.
    pub open spec fn project_update_allowed(self, caller: Identity, project: u64) -> bool {
        self.initialized() && project < self.projects@.len() && self.is_head(caller)
    }

    /// Whether a payment is recorded for `payer` in `year`.
    pub open spec fn has_payment(self, payer: Identity, year: u16) -> bool {
        exists|i: int|
            0 <= i < self.payments@.len() && self.payments@[i].user == payer
                && self.payments@[i].year == year
    }

    /// An empty, uninitialized ledger.
    pub fn new() -> (l: Ledger)
        ensures
            l.wf(),
            !l.initialized(),
            l.ward_rates@.len() == 0,
            l.payments@.len() == 0,
            l.grievances@.len() == 0,
            l.projects@.len() == 0,
            l.feedbacks@.len() == 0,
            l.treasury_balance == 0,
    {
        Ledger {
            authority: None,
            ward_rates: Vec::new(),
            payments: Vec::new(),
            grievances: Vec::new(),
            projects: Vec::new(),
            feedbacks: Vec::new(),
            treasury_balance: 0,
        }
    }

    /// One-time bootstrap: records the government officer and the initial
    /// tax year, with the municipal head still unassigned. Fails with
    /// `AlreadyInitialized`, touching nothing, if run a second time.
    pub fn initialize(&mut self, admin_govt: Identity) -> (r: Result<(), ErrorCode>)
        requires
            old(self).wf(),
        ensures
            final(self).wf(),
            r is Ok <==> !old(self).initialized(),
            r is Err ==> r->Err_0 == ErrorCode::AlreadyInitialized && *final(self) == *old(self),
            r is Ok ==> final(self).authority == Some(
                State {
                    admin_govt,
                    admin_head: None,
                    current_tax_year: INITIAL_TAX_YEAR,
                },
            ),
            final(self).ward_rates == old(self).ward_rates,
            final(self).payments == old(self).payments,
            final(self).grievances == old(self).grievances,
            final(self).projects == old(self).projects,
            final(self).feedbacks == old(self).feedbacks,
            final(self).treasury_balance == old(self).treasury_balance,
    {
        if self.authority.is_some() {
            return Err(ErrorCode::AlreadyInitialized);
        }
        self.authority = Some(
            State { admin_govt, admin_head: None, current_tax_year: INITIAL_TAX_YEAR },
        );
        Ok(())
    }

    /// Assigns (or replaces) the municipal head. Only the government officer
    /// may do this; any other caller changes nothing and gets
    /// `Unauthorized`.
    pub fn assign_admin_head(&mut self, caller: Identity, new_admin_head: Identity) -> (r: Result<
        (),
        ErrorCode,
    >)
        requires
            old(self).wf(),
        ensures
            final(self).wf(),
            r is Ok <==> old(self).is_govt(caller),
            !old(self).initialized() ==> r == Err::<(), ErrorCode>(ErrorCode::NotFound),
            old(self).initialized() && !old(self).is_govt(caller) ==> r == Err::<(), ErrorCode>(
                ErrorCode::Unauthorized,
            ),
            r is Err ==> *final(self) == *old(self),
            r is Ok ==> final(self).authority == Some(
                State {
                    admin_govt: old(self).govt(),
                    admin_head: Some(new_admin_head),
                    current_tax_year: old(self).authority->0.current_tax_year,
                },
            ),
            final(self).ward_rates == old(self).ward_rates,
            final(self).payments == old(self).payments,
            final(self).grievances == old(self).grievances,
            final(self).projects == old(self).projects,
            final(self).feedbacks == old(self).feedbacks,
            final(self).treasury_balance == old(self).treasury_balance,
    {
        let st = match self.authority {
            None => {
                return Err(ErrorCode::NotFound);
            },
            Some(s) => s,
        };
        if caller != st.admin_govt {
            return Err(ErrorCode::Unauthorized);
        }
        self.authority = Some(
            State {
                admin_govt: st.admin_govt,
                admin_head: Some(new_admin_head),
                current_tax_year: st.current_tax_year,
            },
        );
        Ok(())
    }

    /// Sets the tax rate of `ward`, creating the record or overwriting an
    /// existing one (upsert). Only the government officer may do this. No
    /// other ward's rate is touched.
    pub fn set_ward_tax(&mut self, caller: Identity, ward: u16, amount: u64) -> (r: Result<
        (),
        ErrorCode,
    >)
        requires
            old(self).wf(),
        ensures
            final(self).wf(),
            r is Ok <==> old(self).is_govt(caller),
            !old(self).initialized() ==> r == Err::<(), ErrorCode>(ErrorCode::NotFound),
            old(self).initialized() && !old(self).is_govt(caller) ==> r == Err::<(), ErrorCode>(
                ErrorCode::Unauthorized,
            ),
            r is Err ==> *final(self) == *old(self),
            r is Ok ==> final(self).has_rate(ward) && final(self).rate_for(ward) == amount,
            r is Ok ==> forall|w: u16|
                w != ward ==> #[trigger] final(self).has_rate(w) == old(self).has_rate(w),
            r is Ok ==> forall|w: u16|
                w != ward && old(self).has_rate(w) ==> #[trigger] final(self).rate_for(w) == old(
                    self,
                ).rate_for(w),
            final(self).authority == old(self).authority,
            final(self).payments == old(self).payments,
            final(self).grievances == old(self).grievances,
            final(self).projects == old(self).projects,
            final(self).feedbacks == old(self).feedbacks,
            final(self).treasury_balance == old(self).treasury_balance,
    {
        let st = match self.authority {
            None => {
                return Err(ErrorCode::NotFound);
            },
            Some(s) => s,
        };
        if caller != st.admin_govt {
            return Err(ErrorCode::Unauthorized);
        }
        let found = find_rate_index(&self.ward_rates, ward);
        match found {
            Some(i) => {
                self.ward_rates[i] = WardTax { ward, amount };
                proof {
                    lemma_set_rate_update(*old(self), *self, ward, amount, i as int);
                }
            },
            None => {
                self.ward_rates.push(WardTax { ward, amount });
                proof {
                    lemma_set_rate_push(*old(self), *self, ward, amount);
                }
            },
        }
        Ok(())
    }

    /// Pays the caller's yearly tax: debits the payer's spendable balance by
    /// exactly the ward's rate, credits the custodial treasury pool by the
    /// same amount, and records the receipt, as one atomic unit — on any
    /// failure neither the balances nor the records move. The recorded
    /// amount is the ward's rate at call time, never a caller-supplied
    /// value, and at most one payment per `(payer, year)` can ever be
    /// recorded.
    ///
    /// The precondition reflects the machine limit the runtime guarantees:
    /// the pool plus any one spendable balance fits in 64 bits, since all
    /// currency in circulation does.
    pub fn pay_tax(
        &mut self,
        caller: Identity,
        payer_balance: &mut u64,
        ward: u16,
        year: u16,
        now: i64,
    ) -> (r: Result<(), ErrorCode>)
        requires
            old(self).wf(),
            old(self).treasury_balance + *old(payer_balance) <= u64::MAX,
        ensures
            final(self).wf(),
            r is Ok <==> old(self).initialized() && old(self).has_rate(ward) && !old(
                self,
            ).has_payment(caller, year) && *old(payer_balance) >= old(self).rate_for(ward),
            !old(self).initialized() ==> r == Err::<(), ErrorCode>(ErrorCode::NotFound),
            old(self).initialized() && !old(self).has_rate(ward) ==> r == Err::<(), ErrorCode>(
                ErrorCode::TaxRateNotSet,
            ),
            old(self).initialized() && old(self).has_rate(ward) && old(self).has_payment(
                caller,
                year,
            ) ==> r == Err::<(), ErrorCode>(ErrorCode::DuplicatePayment),
            old(self).initialized() && old(self).has_rate(ward) && !old(self).has_payment(
                caller,
                year,
            ) && *old(payer_balance) < old(self).rate_for(ward) ==> r == Err::<(), ErrorCode>(
                ErrorCode::InsufficientFunds,
            ),
            r is Err ==> *final(self) == *old(self) && *final(payer_balance) == *old(
                payer_balance,
            ),
            r is Ok ==> final(self).payments@ == old(self).payments@.push(
                TaxPayment {
                    user: caller,
                    amount: old(self).rate_for(ward),
                    year,
                    timestamp: now,
                },
            ),
            r is Ok ==> *final(payer_balance) == *old(payer_balance) - old(self).rate_for(ward)
                && final(self).treasury_balance == old(self).treasury_balance + old(self).rate_for(
                ward,
            ),
            r is Ok ==> final(self).has_payment(caller, year),
            final(self).authority == old(self).authority,
            final(self).ward_rates == old(self).ward_rates,
            final(self).grievances == old(self).grievances,
            final(self).projects == old(self).projects,
            final(self).feedbacks == old(self).feedbacks,
    {
        if self.authority.is_none() {
            return Err(ErrorCode::NotFound);
        }
        let ri = match find_rate_index(&self.ward_rates, ward) {
            None => {
                return Err(ErrorCode::TaxRateNotSet);
            },
            Some(i) => i,
        };
        let rate = self.ward_rates[ri].amount;
        proof {
            lemma_rate_unique(*old(self), ward, ri as int);
        }
        if find_payment_index(&self.payments, caller, year).is_some() {
            return Err(ErrorCode::DuplicatePayment);
        }
        if *payer_balance < rate {
            return Err(ErrorCode::InsufficientFunds);
        }
        *payer_balance = *payer_balance - rate;
        self.treasury_balance = self.treasury_balance + rate;
        self.payments.push(TaxPayment { user: caller, amount: rate, year, timestamp: now });
        proof {
            let n = old(self).payments@.len() as int;
            assert forall|a: int, b: int|
                0 <= a < b < self.payments@.len() implies !(self.payments@[a].user
                == self.payments@[b].user && self.payments@[a].year == self.payments@[b].year) by {
                if b < n {
                    assert(!(old(self).payments@[a].user == old(self).payments@[b].user && old(
                        self,
                    ).payments@[a].year == old(self).payments@[b].year));
                } else {
                    assert(!(old(self).payments@[a].user == caller && old(self).payments@[a].year
                        == year));
                }
            }
            assert(self.payments@[n].user == caller && self.payments@[n].year == year);
        }
        Ok(())
    }

    /// Files a new grievance for the caller, in state `Pending`. The filer
    /// recorded is the authenticated caller, never a free input. Returns the
    /// fresh record identifier.
    pub fn file_grievance(&mut self, caller: Identity, details: Vec<u8>, now: i64) -> (r: Result<
        u64,
        ErrorCode,
    >)
        requires
            old(self).wf(),
        ensures
            final(self).wf(),
            r is Ok <==> old(self).initialized() && details@.len() <= MAX_DETAILS_LEN,
            !old(self).initialized() ==> r == Err::<u64, ErrorCode>(ErrorCode::NotFound),
            old(self).initialized() && details@.len() > MAX_DETAILS_LEN ==> r == Err::<
                u64,
                ErrorCode,
            >(ErrorCode::StringTooLong),
            r is Err ==> *final(self) == *old(self),
            r is Ok ==> r->Ok_0 == old(self).grievances@.len() && final(self).grievances@ == old(
                self,
            ).grievances@.push(
                Grievance { user: caller, details, status: GrievanceStatus::Pending, timestamp: now },
            ),
            final(self).authority == old(self).authority,
            final(self).ward_rates == old(self).ward_rates,
            final(self).payments == old(self).payments,
            final(self).projects == old(self).projects,
            final(self).feedbacks == old(self).feedbacks,
            final(self).treasury_balance == old(self).treasury_balance,
    {
        if self.authority.is_none() {
            return Err(ErrorCode::NotFound);
        }
        if details.len() > MAX_DETAILS_LEN {
            return Err(ErrorCode::StringTooLong);
        }
        let id = self.grievances.len() as u64;
        self.grievances.push(
            Grievance { user: caller, details, status: GrievanceStatus::Pending, timestamp: now },
        );
        Ok(id)
    }

    /// Moves a grievance to `new_status`. Any state may be set from any
    /// other — corrective moves are deliberate — but only the municipal head
    /// may do it, and nothing else of the record changes.
    pub fn update_grievance_status(
        &mut self,
        caller: Identity,
        grievance: u64,
        new_status: GrievanceStatus,
    ) -> (r: Result<(), ErrorCode>)
        requires
            old(self).wf(),
        ensures
            final(self).wf(),
            r is Ok <==> old(self).grievance_update_allowed(caller, grievance),
            !old(self).initialized() || grievance >= old(self).grievances@.len() ==> r == Err::<
                (),
                ErrorCode,
            >(ErrorCode::NotFound),
            old(self).initialized() && grievance < old(self).grievances@.len() && !old(
                self,
            ).is_head(caller) ==> r == Err::<(), ErrorCode>(ErrorCode::Unauthorized),
            r is Err ==> *final(self) == *old(self),
            r is Ok ==> final(self).grievances@ == old(self).grievances@.update(
                grievance as int,
                Grievance {
                    user: old(self).grievances@[grievance as int].user,
                    details: old(self).grievances@[grievance as int].details,
                    status: new_status,
                    timestamp: old(self).grievances@[grievance as int].timestamp,
                },
            ),
            final(self).authority == old(self).authority,
            final(self).ward_rates == old(self).ward_rates,
            final(self).payments == old(self).payments,
            final(self).projects == old(self).projects,
            final(self).feedbacks == old(self).feedbacks,
            final(self).treasury_balance == old(self).treasury_balance,
    {
        let st = match self.authority {
            None => {
                return Err(ErrorCode::NotFound);
            },
            Some(s) => s,
        };
        if grievance >= self.grievances.len() as u64 {
            return Err(ErrorCode::NotFound);
        }
        let head_matches = match st.admin_head {
            Some(h) => h == caller,
            None => false,
        };
        if !head_matches {
            return Err(ErrorCode::Unauthorized);
        }
        let i = grievance as usize;
        let record = &mut self.grievances[i];
        record.status = new_status;
        Ok(())
    }

    /// Creates a new project in state `Planning`. Only the municipal head
    /// may create projects. Returns the fresh record identifier.
    pub fn create_project(&mut self, caller: Identity, name: Vec<u8>, details: Vec<u8>) -> (r:
        Result<u64, ErrorCode>)
        requires
            old(self).wf(),
        ensures
            final(self).wf(),
            r is Ok <==> old(self).initialized() && old(self).is_head(caller) && name@.len()
                <= MAX_NAME_LEN && details@.len() <= MAX_DETAILS_LEN,
            !old(self).initialized() ==> r == Err::<u64, ErrorCode>(ErrorCode::NotFound),
            old(self).initialized() && !old(self).is_head(caller) ==> r == Err::<u64, ErrorCode>(
                ErrorCode::Unauthorized,
            ),
            old(self).initialized() && old(self).is_head(caller) && (name@.len() > MAX_NAME_LEN
                || details@.len() > MAX_DETAILS_LEN) ==> r == Err::<u64, ErrorCode>(
                ErrorCode::StringTooLong,
            ),
            r is Err ==> *final(self) == *old(self),
            r is Ok ==> r->Ok_0 == old(self).projects@.len() && final(self).projects@ == old(
                self,
            ).projects@.push(Project { name, details, status: ProjectStatus::Planning }),
            final(self).authority == old(self).authority,
            final(self).ward_rates == old(self).ward_rates,
            final(self).payments == old(self).payments,
            final(self).grievances == old(self).grievances,
            final(self).feedbacks == old(self).feedbacks,
            final(self).treasury_balance == old(self).treasury_balance,
    {
        let st = match self.authority {
            None => {
                return Err(ErrorCode::NotFound);
            },
            Some(s) => s,
        };
        let head_matches = match st.admin_head {
            Some(h) => h == caller,
            None => false,
        };
        if !head_matches {
            return Err(ErrorCode::Unauthorized);
        }
        if name.len() > MAX_NAME_LEN || details.len() > MAX_DETAILS_LEN {
            return Err(ErrorCode::StringTooLong);
        }
        let id = self.projects.len() as u64;
        self.projects.push(Project { name, details, status: ProjectStatus::Planning });
        Ok(id)
    }

    /// Moves a project to `new_status`. As with grievances, any state may be
    /// set from any other, gated to the municipal head alone. Reverting a
    /// `Done` project does not disturb feedback already recorded against it.
    pub fn update_project_status(
        &mut self,
        caller: Identity,
        project: u64,
        new_status: ProjectStatus,
    ) -> (r: Result<(), ErrorCode>)
        requires
            old(self).wf(),
        ensures
            final(self).wf(),
            r is Ok <==> old(self).project_update_allowed(caller, project),
            !old(self).initialized() || project >= old(self).projects@.len() ==> r == Err::<
                (),
                ErrorCode,
            >(ErrorCode::NotFound),
            old(self).initialized() && project < old(self).projects@.len() && !old(self).is_head(
                caller,
            ) ==> r == Err::<(), ErrorCode>(ErrorCode::Unauthorized),
            r is Err ==> *final(self) == *old(self),
            r is Ok ==> final(self).projects@ == old(self).projects@.update(
                project as int,
                Project {
                    name: old(self).projects@[project as int].name,
                    details: old(self).projects@[project as int].details,
                    status: new_status,
                },
            ),
            final(self).authority == old(self).authority,
            final(self).ward_rates == old(self).ward_rates,
            final(self).payments == old(self).payments,
            final(self).grievances == old(self).grievances,
            final(self).feedbacks == old(self).feedbacks,
            final(self).treasury_balance == old(self).treasury_balance,
    {
        let st = match self.authority {
            None => {
                return Err(ErrorCode::NotFound);
            },
            Some(s) => s,
        };
        if project >= self.projects.len() as u64 {
            return Err(ErrorCode::NotFound);
        }
        let head_matches = match st.admin_head {
            Some(h) => h == caller,
            None => false,
        };
        if !head_matches {
            return Err(ErrorCode::Unauthorized);
        }
        let i = project as usize;
        let record = &mut self.projects[i];
        record.status = new_status;
        Ok(())
    }

    /// Records the caller's feedback on a project. The referenced project
    /// must be in state `Done` at call time — a point-in-time check, not a
    /// commitment: the feedback stays if the project is later reverted.
    /// Returns the fresh record identifier.
    pub fn give_feedback(
        &mut self,
        caller: Identity,
        project: u64,
        comment: Vec<u8>,
        satisfied: bool,
    ) -> (r: Result<u64, ErrorCode>)
        requires
            old(self).wf(),
        ensures
            final(self).wf(),
            r is Ok <==> old(self).initialized() && project < old(self).projects@.len() && old(
                self,
            ).projects@[project as int].status is Done && comment@.len() <= MAX_COMMENT_LEN,
            !old(self).initialized() || project >= old(self).projects@.len() ==> r == Err::<
                u64,
                ErrorCode,
            >(ErrorCode::NotFound),
            old(self).initialized() && project < old(self).projects@.len() && !(old(
                self,
            ).projects@[project as int].status is Done) ==> r == Err::<u64, ErrorCode>(
                ErrorCode::ProjectNotDone,
            ),
            old(self).initialized() && project < old(self).projects@.len() && old(
                self,
            ).projects@[project as int].status is Done && comment@.len() > MAX_COMMENT_LEN ==> r
                == Err::<u64, ErrorCode>(ErrorCode::StringTooLong),
            r is Err ==> *final(self) == *old(self),
            r is Ok ==> r->Ok_0 == old(self).feedbacks@.len() && final(self).feedbacks@ == old(
                self,
            ).feedbacks@.push(Feedback { user: caller, project, comment, satisfied }),
            final(self).authority == old(self).authority,
            final(self).ward_rates == old(self).ward_rates,
            final(self).payments == old(self).payments,
            final(self).grievances == old(self).grievances,
            final(self).projects == old(self).projects,
            final(self).treasury_balance == old(self).treasury_balance,
    {
        if self.authority.is_none() {
            return Err(ErrorCode::NotFound);
        }
        if project >= self.projects.len() as u64 {
            return Err(ErrorCode::NotFound);
        }
        let i = project as usize;
        let done = match self.projects[i].status {
            ProjectStatus::Done => true,
            _ => false,
        };
        if !done {
            return Err(ErrorCode::ProjectNotDone);
        }
        if comment.len() > MAX_COMMENT_LEN {
            return Err(ErrorCode::StringTooLong);
        }
        let id = self.feedbacks.len() as u64;
        self.feedbacks.push(Feedback { user: caller, project, comment, satisfied });
        Ok(id)
    }

    /// Looks up the rate currently set for `ward`, if any.
    pub fn get_ward_rate(&self, ward: u16) -> (r: Option<u64>)
        requires
            self.wf(),
        ensures
            r is Some <==> self.has_rate(ward),
            r is Some ==> r->0 == self.rate_for(ward),
    {
        match find_rate_index(&self.ward_rates, ward) {
            Some(i) => {
                proof {
                    lemma_rate_unique(*self, ward, i as int);
                }
                Some(self.ward_rates[i].amount)
            },
            None => None,
        }
    }

    /// Looks up the payment recorded for `payer` in `year`, if any; by key
    /// uniqueness it is the only one.
    pub fn get_payment(&self, payer: Identity, year: u16) -> (r: Option<TaxPayment>)
        requires
            self.wf(),
        ensures
            r is Some <==> self.has_payment(payer, year),
            r matches Some(p) ==> p.user == payer && p.year == year && exists|i: int|
                0 <= i < self.payments@.len() && self.payments@[i] == p,
    {
        match find_payment_index(&self.payments, payer, year) {
            Some(i) => Some(self.payments[i]),
            None => None,
        }
    }
}

/// Finds the index of the payment record of `(payer, year)`, if one exists.
fn find_payment_index(payments: &Vec<TaxPayment>, payer: Identity, year: u16) -> (r: Option<usize>)
    ensures
        match r {
            Some(i) => i < payments@.len() && payments@[i as int].user == payer
                && payments@[i as int].year == year,
            None => forall|k: int|
                0 <= k < payments@.len() ==> !(payments@[k].user == payer && payments@[k].year
                    == year),
        },
{
    let n = payments.len();
    let mut i: usize = 0;
    while i < n
        invariant
            i <= n,
            n == payments@.len(),
            forall|k: int|
                0 <= k < i ==> !(payments@[k].user == payer && payments@[k].year == year),
        decreases n - i,
    {
        if payments[i].user == payer && payments[i].year == year {
            return Some(i);
        }
        i += 1;
    }
    None
}

/// Law: in a well-formed ledger, at most one payment record exists per
/// `(payer, year)` pair — two indices that carry the same key coincide.
pub proof fn lemma_payment_key_unique(l: Ledger, i: int, j: int)
    requires
        l.wf(),
        0 <= i < l.payments@.len(),
        0 <= j < l.payments@.len(),
        l.payments@[i].user == l.payments@[j].user,
        l.payments@[i].year == l.payments@[j].year,
    ensures
        i == j,
{
}

/// Finds the index of the rate record of `ward`, if one exists.
fn find_rate_index(rates: &Vec<WardTax>, ward: u16) -> (r: Option<usize>)
    ensures
        match r {
            Some(i) => i < rates@.len() && rates@[i as int].ward == ward,
            None => forall|k: int| 0 <= k < rates@.len() ==> rates@[k].ward != ward,
        },
{
    let n = rates.len();
    let mut i: usize = 0;
    while i < n
        invariant
            i <= n,
            n == rates@.len(),
            forall|k: int| 0 <= k < i ==> rates@[k].ward != ward,
        decreases n - i,
    {
        if rates[i].ward == ward {
            return Some(i);
        }
        i += 1;
    }
    None
}

/// Law: status transitions are unrestricted in direction. Whether a status
/// update may proceed depends only on bootstrap, the record's existence, and
/// the caller being the municipal head — never on the record's current
/// status nor on the status being requested, so any state is reachable from
/// any other under the one gating role.
pub proof fn lemma_transitions_unrestricted(
    l: Ledger,
    caller: Identity,
    grievance: u64,
    project: u64,
)
    ensures
        l.grievance_update_allowed(caller, grievance) == (l.initialized() && grievance
            < l.grievances@.len() && l.is_head(caller)),
        l.project_update_allowed(caller, project) == (l.initialized() && project
            < l.projects@.len() && l.is_head(caller)),
{
}

/// Law: the authority record exists before any other record can — in a
/// well-formed ledger that is not yet bootstrapped, every store is empty and
/// the pool holds nothing.
pub proof fn lemma_no_records_before_bootstrap(l: Ledger)
    requires
        l.wf(),
        !l.initialized(),
    ensures
        l.ward_rates@.len() == 0,
        l.payments@.len() == 0,
        l.grievances@.len() == 0,
        l.projects@.len() == 0,
        l.feedbacks@.len() == 0,
        l.treasury_balance == 0,
{
}

/// In a well-formed ledger a ward has at most one rate record, so any index
/// that holds the ward determines the looked-up rate.
pub proof fn lemma_rate_unique(l: Ledger, ward: u16, i: int)
    requires
        l.wf(),
        0 <= i < l.ward_rates@.len(),
        l.ward_rates@[i].ward == ward,
    ensures
        l.has_rate(ward),
        l.rate_for(ward) == l.ward_rates@[i].amount,
{
    assert(l.has_rate(ward));
    let j = choose|j: int| 0 <= j < l.ward_rates@.len() && l.ward_rates@[j].ward == ward;
    if i < j {
        assert(l.ward_rates@[i].ward != l.ward_rates@[j].ward);
    }
    if j < i {
        assert(l.ward_rates@[j].ward != l.ward_rates@[i].ward);
    }
}

/// What overwriting the rate record at index `i` does to the rate view:
/// `ward` now maps to `amount` and every other ward is untouched.
proof fn lemma_set_rate_update(pre: Ledger, post: Ledger, ward: u16, amount: u64, i: int)
    requires
        pre.wf(),
        pre.initialized(),
        post.authority == pre.authority,
        post.treasury_balance == pre.treasury_balance,
        0 <= i < pre.ward_rates@.len(),
        pre.ward_rates@[i].ward == ward,
        post.ward_rates@ == pre.ward_rates@.update(i, WardTax { ward, amount }),
        post.grievances == pre.grievances,
        post.projects == pre.projects,
        post.feedbacks == pre.feedbacks,
        post.payments == pre.payments,
    ensures
        post.wf(),
        post.has_rate(ward),
        post.rate_for(ward) == amount,
        forall|w: u16| w != ward ==> #[trigger] post.has_rate(w) == pre.has_rate(w),
        forall|w: u16|
            w != ward && pre.has_rate(w) ==> #[trigger] post.rate_for(w) == pre.rate_for(w),
{
    assert forall|a: int, b: int| 0 <= a < b < post.ward_rates@.len() implies post.ward_rates@[a].ward
        != post.ward_rates@[b].ward by {
        assert(pre.ward_rates@[a].ward != pre.ward_rates@[b].ward);
    }
    lemma_rate_unique(post, ward, i);
    assert forall|w: u16| w != ward implies #[trigger] post.has_rate(w) == pre.has_rate(w) by {
        if pre.has_rate(w) {
            let k = choose|k: int|
                0 <= k < pre.ward_rates@.len() && pre.ward_rates@[k].ward == w;
            assert(post.ward_rates@[k].ward == w);
        }
        if post.has_rate(w) {
            let k = choose|k: int|
                0 <= k < post.ward_rates@.len() && post.ward_rates@[k].ward == w;
            assert(pre.ward_rates@[k].ward == w);
        }
    }
    assert forall|w: u16| w != ward && pre.has_rate(w) implies #[trigger] post.rate_for(w)
        == pre.rate_for(w) by {
        let k = choose|k: int| 0 <= k < pre.ward_rates@.len() && pre.ward_rates@[k].ward == w;
        lemma_rate_unique(pre, w, k);
        assert(post.ward_rates@[k].ward == w);
        lemma_rate_unique(post, w, k);
    }
}

/// What appending a fresh rate record does to the rate view: `ward` now maps
/// to `amount` and every other ward is untouched.
proof fn lemma_set_rate_push(pre: Ledger, post: Ledger, ward: u16, amount: u64)
    requires
        pre.wf(),
        pre.initialized(),
        post.authority == pre.authority,
        post.treasury_balance == pre.treasury_balance,
        !pre.has_rate(ward),
        post.ward_rates@ == pre.ward_rates@.push(WardTax { ward, amount }),
        post.grievances == pre.grievances,
        post.projects == pre.projects,
        post.feedbacks == pre.feedbacks,
        post.payments == pre.payments,
    ensures
        post.wf(),
        post.has_rate(ward),
        post.rate_for(ward) == amount,
        forall|w: u16| w != ward ==> #[trigger] post.has_rate(w) == pre.has_rate(w),
        forall|w: u16|
            w != ward && pre.has_rate(w) ==> #[trigger] post.rate_for(w) == pre.rate_for(w),
{
    let n = pre.ward_rates@.len() as int;
    assert forall|a: int, b: int| 0 <= a < b < post.ward_rates@.len() implies post.ward_rates@[a].ward
        != post.ward_rates@[b].ward by {
        if b < n {
            assert(pre.ward_rates@[a].ward != pre.ward_rates@[b].ward);
        } else {
            assert(post.ward_rates@[b].ward == ward);
            assert(pre.ward_rates@[a].ward != ward);
        }
    }
    lemma_rate_unique(post, ward, n);
    assert forall|w: u16| w != ward implies #[trigger] post.has_rate(w) == pre.has_rate(w) by {
        if pre.has_rate(w) {
            let k = choose|k: int|
                0 <= k < pre.ward_rates@.len() && pre.ward_rates@[k].ward == w;
            assert(post.ward_rates@[k].ward == w);
        }
        if post.has_rate(w) {
            let k = choose|k: int|
                0 <= k < post.ward_rates@.len() && post.ward_rates@[k].ward == w;
            assert(k < n);
            assert(pre.ward_rates@[k].ward == w);
        }
    }
    assert forall|w: u16| w != ward && pre.has_rate(w) implies #[trigger] post.rate_for(w)
        == pre.rate_for(w) by {
        let k = choose|k: int| 0 <= k < pre.ward_rates@.len() && pre.ward_rates@[k].ward == w;
        lemma_rate_unique(pre, w, k);
        assert(post.ward_rates@[k].ward == w);
        lemma_rate_unique(post, w, k);
    }
}

} // verus!
