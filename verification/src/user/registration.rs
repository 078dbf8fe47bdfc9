//! Registration, step by step: what the credential store is asked to do
//! next, and what follows from its answer.
use super::error::UserError;
use vstd::prelude::*;

verus! {

/// What a registration writes, and where.
#[derive(Debug, Clone, PartialEq, Eq)]
pub struct RegistrationPlan {
    /// The directory of the new user.
    pub user_dir: String,
    /// The file that holds the record.
    pub credentials_path: String,
    /// The record, as JSON.
    pub credentials: String,
}

/// A registration under way. Each state but the last two names what the
/// store is to do next; its answer leads to the next state.
#[derive(Debug, Clone, PartialEq, Eq)]
pub enum Registration {
    /// Say whether the directory of the user exists.
    Probing(RegistrationPlan),
    /// Create the directory of the user, and say whether that succeeded.
    Creating(RegistrationPlan),
    /// Write the record into its file, and say whether that succeeded.
    Writing(RegistrationPlan),
    /// Remove the directory of the user again.
    Removing(RegistrationPlan),
    /// The user is registered.
    Registered,
    /// The user is not registered.
    Refused(UserError),
}

impl Registration {
    /// The state that follows on the store's answer. A directory that exists
    /// belongs to a user; one that cannot be created, or a record that cannot
    /// be written, fails the registration, and the directory of a record that
    /// could not be written is removed first.
    pub open spec fn next(self, answer: bool) -> Registration {
        match self {
            Registration::Probing(plan) => if answer {
                Registration::Refused(UserError::UserExists)
            } else {
                Registration::Creating(plan)
            },
            Registration::Creating(plan) => if answer {
                Registration::Writing(plan)
            } else {
                Registration::Refused(UserError::RegistrationFailed)
            },
            Registration::Writing(plan) => if answer {
                Registration::Registered
            } else {
                Registration::Removing(plan)
            },
            Registration::Removing(_) => Registration::Refused(UserError::RegistrationFailed),
            Registration::Registered => Registration::Registered,
            Registration::Refused(e) => Registration::Refused(e),
        }
    }

    /// The state after a run of answers.
    pub open spec fn run(self, answers: Seq<bool>) -> Registration
        decreases answers.len(),
    {
        if answers.len() == 0 {
            self
        } else {
            self.next(answers[0]).run(answers.drop_first())
        }
    }

    /// Whether the registration has come to its end.
    pub open spec fn is_settled(self) -> bool {
        self is Registered || self is Refused
    }

    /// Takes the store's answer to the step that the state names.
    pub fn advance(self, answer: bool) -> (r: Registration)
        ensures
            r == self.next(answer),
    {
        match self {
            Registration::Probing(plan) => if answer {
                Registration::Refused(UserError::UserExists)
            } else {
                Registration::Creating(plan)
            },
            Registration::Creating(plan) => if answer {
                Registration::Writing(plan)
            } else {
                Registration::Refused(UserError::RegistrationFailed)
            },
            Registration::Writing(plan) => if answer {
                Registration::Registered
            } else {
                Registration::Removing(plan)
            },
            Registration::Removing(_) => Registration::Refused(UserError::RegistrationFailed),
            Registration::Registered => Registration::Registered,
            Registration::Refused(e) => Registration::Refused(e),
        }
    }

    /// How the registration ended, once it has.
    pub fn outcome(&self) -> (r: Option<Result<(), UserError>>)
        ensures
            match *self {
                Registration::Registered => r == Some(Ok::<(), UserError>(())),
                Registration::Refused(e) => r == Some(Err::<(), UserError>(e)),
                _ => r is None,
            },
    {
        match self {
            Registration::Registered => Some(Ok(())),
            Registration::Refused(e) => Some(Err(*e)),
            _ => None,
        }
    }

    /// A registration that has come to its end stays as it is.
    pub proof fn lemma_settled(self, answers: Seq<bool>)
        requires
            self.is_settled(),
        ensures
            self.run(answers) == self,
        decreases answers.len(),
    {
        if answers.len() > 0 {
            self.next(answers[0]).lemma_settled(answers.drop_first());
        }
    }

    /// A user is registered exactly where the directory did not exist, was
    /// created, and the record was written; a directory that exists refuses
    /// the user as existing, whatever follows; and four answers settle every
    /// registration.
    pub proof fn lemma_registered(plan: RegistrationPlan, answers: Seq<bool>)
        ensures
            Registration::Probing(plan).run(answers) is Registered <==> answers.len() >= 3
                && !answers[0] && answers[1] && answers[2],
            answers.len() >= 1 && answers[0] ==> Registration::Probing(plan).run(answers)
                == Registration::Refused(UserError::UserExists),
            answers.len() >= 4 ==> Registration::Probing(plan).run(answers).is_settled(),
    {
        let s0 = Registration::Probing(plan);
        if answers.len() >= 1 {
            let s1 = s0.next(answers[0]);
            let a1 = answers.drop_first();
            assert(s0.run(answers) == s1.run(a1));
            if s1.is_settled() {
                s1.lemma_settled(a1);
            } else if a1.len() >= 1 {
                let s2 = s1.next(a1[0]);
                let a2 = a1.drop_first();
                assert(s1.run(a1) == s2.run(a2));
                if s2.is_settled() {
                    s2.lemma_settled(a2);
                } else if a2.len() >= 1 {
                    let s3 = s2.next(a2[0]);
                    let a3 = a2.drop_first();
                    assert(s2.run(a2) == s3.run(a3));
                    if s3.is_settled() {
                        s3.lemma_settled(a3);
                    } else if a3.len() >= 1 {
                        let s4 = s3.next(a3[0]);
                        let a4 = a3.drop_first();
                        assert(s3.run(a3) == s4.run(a4));
                        s4.lemma_settled(a4);
                    }
                }
            }
        }
    }
}

} // verus!
