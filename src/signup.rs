//! The signup coordinator: creates a user and its role profile in one
//! transaction of the store.
//!
//! The store is driven from outside. The coordinator is a state machine: each
//! step takes the store's reply to the previous action and answers with the
//! next action, or with the outcome. Every failure after the transaction has
//! begun rolls it back before the error is surfaced, and a commit is asked for
//! only once both rows are in and agree with the request.

use vstd::prelude::*;

use crate::credentials::{argon2_accepts, argon2id_prefix, hash_password};
use crate::date::Date;
use crate::error::{
    classify_store_failure, constraint_field, store_error, unique_violation_code, ApiError,
    ConflictField, StoreFailure,
};
use crate::requests::{requested_role, SignupRequest, SignupRequestLike};
use crate::roles::UserRole;
use crate::users::{stored_role, AttendeeData, OrganizerData, RelatedData, User, UserRow};

verus! {

/// The values of a user row to insert.
#[derive(Debug)]
pub struct NewUser {
    pub full_name: String,
    pub role: UserRole,
    pub email: String,
    pub gov_identification: i64,
    pub password_hash: String,
}

/// What the coordinator asks the store to do next.
#[derive(Debug)]
pub enum StoreAction {
    /// Open a transaction.
    Begin,
    /// Insert a user row and return it.
    InsertUser(NewUser),
    /// Insert an organizer profile row and return it.
    InsertOrganizerData { user_id: u128 },
    /// Insert an attendee profile row and return it.
    InsertAttendeeData { user_id: u128, phone: String, birth_date: Date },
    /// Commit the transaction.
    Commit,
    /// Roll the transaction back.
    Rollback,
}

/// What the store answered to the last action.
#[derive(Debug)]
pub enum StoreReply {
    Begun,
    UserInserted(UserRow),
    OrganizerInserted(OrganizerData),
    AttendeeInserted(AttendeeData),
    Committed,
    RolledBack,
    Failed(StoreFailure),
}

/// Where a signup stands.
#[derive(Debug)]
pub enum SignupPhase {
    /// The transaction is being opened.
    Beginning,
    /// The user row is being inserted.
    InsertingUser,
    /// The user row is in; its profile row is being inserted.
    InsertingProfile(User),
    /// Both rows are in; the commit is pending.
    Committing(User, RelatedData),
    /// The transaction is being rolled back; the error is surfaced after.
    RollingBack(ApiError),
}

/// A signup in progress.
#[derive(Debug)]
pub struct SignupFlow {
    pub request: SignupRequest,
    /// The user row that the request asks for.
    pub new_user: NewUser,
    pub phase: SignupPhase,
}

/// The coordinator's answer: the next action, or the outcome.
#[derive(Debug)]
pub enum Progress {
    Next(SignupFlow, StoreAction),
    Done(Result<(User, RelatedData), ApiError>),
}

/// The user that a returned row stands for.
pub open spec fn row_user(row: UserRow) -> User {
    User {
        id: row.id,
        full_name: row.full_name,
        role: stored_role(row.role@),
        email: row.email,
        gov_identification: row.gov_identification,
    }
}

/// The full name of a request.
pub open spec fn request_full_name(req: SignupRequest) -> Seq<char> {
    match req {
        SignupRequest::Organizer(r) => r.spec_full_name(),
        SignupRequest::Attendee(r) => r.spec_full_name(),
    }
}

/// The email of a request.
pub open spec fn request_email(req: SignupRequest) -> Seq<char> {
    match req {
        SignupRequest::Organizer(r) => r.spec_email(),
        SignupRequest::Attendee(r) => r.spec_email(),
    }
}

/// The government identification number of a request.
pub open spec fn request_gov_identification(req: SignupRequest) -> i64 {
    match req {
        SignupRequest::Organizer(r) => r.spec_gov_identification(),
        SignupRequest::Attendee(r) => r.spec_gov_identification(),
    }
}

/// The password of a request.
pub open spec fn request_password(req: SignupRequest) -> Seq<char> {
    match req {
        SignupRequest::Organizer(r) => r.spec_password(),
        SignupRequest::Attendee(r) => r.spec_password(),
    }
}

/// The profile row that a request asks for, for the user with `user_id`.
pub open spec fn profile_insert(req: SignupRequest, user_id: u128) -> StoreAction {
    match req {
        SignupRequest::Organizer(_) => StoreAction::InsertOrganizerData { user_id },
        SignupRequest::Attendee(r) => StoreAction::InsertAttendeeData {
            user_id,
            phone: r.phone,
            birth_date: r.birth_date,
        },
    }
}

impl NewUser {
    /// The row holds the request's fields, its role and the given hash.
    pub open spec fn carries(self, req: SignupRequest, password_hash: String) -> bool {
        &&& self.full_name@ == request_full_name(req)
        &&& self.role == requested_role(req)
        &&& self.email@ == request_email(req)
        &&& self.gov_identification == request_gov_identification(req)
        &&& self.password_hash == password_hash
    }

    /// A user as the store returned it agrees with this row.
    pub open spec fn describes(self, u: User) -> bool {
        &&& u.full_name@ == self.full_name@
        &&& u.role == self.role
        &&& u.email@ == self.email@
        &&& u.gov_identification == self.gov_identification
    }

    pub fn snapshot(&self) -> (r: NewUser)
        ensures
            r == *self,
    {
        NewUser {
            full_name: self.full_name.clone(),
            role: self.role,
            email: self.email.clone(),
            gov_identification: self.gov_identification,
            password_hash: self.password_hash.clone(),
        }
    }

    fn describes_user(&self, u: &User) -> (r: bool)
        ensures
            r == self.describes(*u),
    {
        u.full_name == self.full_name && u.role == self.role && u.email == self.email
            && u.gov_identification == self.gov_identification
    }
}

/// The user row for any signup payload, with the role it signs up for.
fn user_params<R: SignupRequestLike>(role: UserRole, req: &R, password_hash: String) -> (r:
    NewUser)
    ensures
        r.full_name@ == req.spec_full_name(),
        r.role == role,
        r.email@ == req.spec_email(),
        r.gov_identification == req.spec_gov_identification(),
        r.password_hash == password_hash,
{
    NewUser {
        full_name: String::from_str(req.full_name()),
        role,
        email: String::from_str(req.email()),
        gov_identification: req.gov_identification(),
        password_hash,
    }
}

impl SignupFlow {
    /// The user row to insert is the one that the request asks for.
    pub open spec fn wf(self) -> bool {
        self.new_user.carries(self.request, self.new_user.password_hash)
    }

    pub open spec fn with_phase(self, phase: SignupPhase) -> SignupFlow {
        SignupFlow { request: self.request, new_user: self.new_user, phase }
    }

    /// Give up: roll back, then surface `e`.
    pub open spec fn abort(self, e: ApiError) -> Progress {
        Progress::Next(self.with_phase(SignupPhase::RollingBack(e)), StoreAction::Rollback)
    }

    /// What the coordinator does on a reply of the store.
    pub open spec fn transition(self, reply: StoreReply) -> Progress {
        match self.phase {
            SignupPhase::Beginning => match reply {
                StoreReply::Begun => Progress::Next(
                    self.with_phase(SignupPhase::InsertingUser),
                    StoreAction::InsertUser(self.new_user),
                ),
                StoreReply::Failed(f) => Progress::Done(Err(store_error(f))),
                _ => self.abort(ApiError::Internal),
            },
            SignupPhase::InsertingUser => match reply {
                StoreReply::UserInserted(row) => {
                    let u = row_user(row);
                    if self.new_user.describes(u) {
                        Progress::Next(
                            self.with_phase(SignupPhase::InsertingProfile(u)),
                            profile_insert(self.request, u.id),
                        )
                    } else {
                        self.abort(ApiError::Internal)
                    }
                },
                StoreReply::Failed(f) => self.abort(store_error(f)),
                _ => self.abort(ApiError::Internal),
            },
            SignupPhase::InsertingProfile(u) => match reply {
                StoreReply::OrganizerInserted(o) => {
                    if self.request is Organizer && o.user_id == u.id {
                        Progress::Next(
                            self.with_phase(
                                SignupPhase::Committing(u, RelatedData::Organizer(o)),
                            ),
                            StoreAction::Commit,
                        )
                    } else {
                        self.abort(ApiError::Internal)
                    }
                },
                StoreReply::AttendeeInserted(a) => match self.request {
                    SignupRequest::Attendee(r) => {
                        if a.user_id == u.id && a.phone@ == r.phone@ && a.birth_date
                            == r.birth_date {
                            Progress::Next(
                                self.with_phase(
                                    SignupPhase::Committing(u, RelatedData::Attendee(a)),
                                ),
                                StoreAction::Commit,
                            )
                        } else {
                            self.abort(ApiError::Internal)
                        }
                    },
                    SignupRequest::Organizer(_) => self.abort(ApiError::Internal),
                },
                StoreReply::Failed(f) => self.abort(store_error(f)),
                _ => self.abort(ApiError::Internal),
            },
            SignupPhase::Committing(u, d) => match reply {
                StoreReply::Committed => Progress::Done(Ok((u, d))),
                StoreReply::Failed(f) => Progress::Done(Err(store_error(f))),
                _ => self.abort(ApiError::Internal),
            },
            SignupPhase::RollingBack(e) => Progress::Done(Err(e)),
        }
    }

    /// A signup whose password is already hashed; its first action opens the
    /// transaction.
    pub fn begin(request: SignupRequest, password_hash: String) -> (r: SignupFlow)
        ensures
            r.request == request,
            r.phase is Beginning,
            r.wf(),
            r.new_user.carries(request, password_hash),
    {
        let new_user = match &request {
            SignupRequest::Organizer(req) => user_params(UserRole::Organizer, req, password_hash),
            SignupRequest::Attendee(req) => user_params(UserRole::Attendee, req, password_hash),
        };
        SignupFlow { request, new_user, phase: SignupPhase::Beginning }
    }

    /// Starts a signup: hashes the password, then asks for a transaction.
    /// Hashing comes first, so a hashing failure opens no transaction.
    pub fn start(request: SignupRequest) -> (r: Progress)
        ensures
            r is Done ==> r == Progress::Done(Err(ApiError::Hashing)),
            r is Next ==> (r matches Progress::Next(f, a) && a is Begin && f.request == request
                && f.phase is Beginning && f.wf()
                && argon2id_prefix().is_prefix_of(f.new_user.password_hash@)
                && argon2_accepts(request_password(request), f.new_user.password_hash@)),
    {
        let hashed = match &request {
            SignupRequest::Organizer(req) => hash_password(req.password()),
            SignupRequest::Attendee(req) => hash_password(req.password()),
        };
        match hashed {
            Ok(h) => Progress::Next(SignupFlow::begin(request, h), StoreAction::Begin),
            Err(e) => Progress::Done(Err(e)),
        }
    }

    /// Takes the store's reply to the last action.
    pub fn step(self, reply: StoreReply) -> (r: Progress)
        ensures
            r == self.transition(reply),
    {
        let SignupFlow { request, new_user, phase } = self;
        match phase {
            SignupPhase::Beginning => match reply {
                StoreReply::Begun => {
                    let action = StoreAction::InsertUser(new_user.snapshot());
                    Progress::Next(
                        SignupFlow { request, new_user, phase: SignupPhase::InsertingUser },
                        action,
                    )
                },
                StoreReply::Failed(f) => Progress::Done(Err(classify_store_failure(f))),
                _ => abort(request, new_user, ApiError::Internal),
            },
            SignupPhase::InsertingUser => match reply {
                StoreReply::UserInserted(row) => {
                    let u = row.into_user();
                    if new_user.describes_user(&u) {
                        let action = profile_action(&request, u.id);
                        Progress::Next(
                            SignupFlow { request, new_user, phase: SignupPhase::InsertingProfile(u) },
                            action,
                        )
                    } else {
                        abort(request, new_user, ApiError::Internal)
                    }
                },
                StoreReply::Failed(f) => abort(request, new_user, classify_store_failure(f)),
                _ => abort(request, new_user, ApiError::Internal),
            },
            SignupPhase::InsertingProfile(u) => match reply {
                StoreReply::OrganizerInserted(o) => {
                    let ok = match &request {
                        SignupRequest::Organizer(_) => o.user_id == u.id,
                        SignupRequest::Attendee(_) => false,
                    };
                    if ok {
                        Progress::Next(
                            SignupFlow {
                                request,
                                new_user,
                                phase: SignupPhase::Committing(u, RelatedData::Organizer(o)),
                            },
                            StoreAction::Commit,
                        )
                    } else {
                        abort(request, new_user, ApiError::Internal)
                    }
                },
                StoreReply::AttendeeInserted(a) => {
                    let ok = match &request {
                        SignupRequest::Attendee(r) => a.user_id == u.id && a.phone == r.phone
                            && a.birth_date == r.birth_date,
                        SignupRequest::Organizer(_) => false,
                    };
                    if ok {
                        Progress::Next(
                            SignupFlow {
                                request,
                                new_user,
                                phase: SignupPhase::Committing(u, RelatedData::Attendee(a)),
                            },
                            StoreAction::Commit,
                        )
                    } else {
                        abort(request, new_user, ApiError::Internal)
                    }
                },
                StoreReply::Failed(f) => abort(request, new_user, classify_store_failure(f)),
                _ => abort(request, new_user, ApiError::Internal),
            },
            SignupPhase::Committing(u, d) => match reply {
                StoreReply::Committed => Progress::Done(Ok((u, d))),
                StoreReply::Failed(f) => Progress::Done(Err(classify_store_failure(f))),
                _ => abort(request, new_user, ApiError::Internal),
            },
            SignupPhase::RollingBack(e) => Progress::Done(Err(e)),
        }
    }
}

fn abort(request: SignupRequest, new_user: NewUser, e: ApiError) -> (r: Progress)
    ensures
        r == Progress::Next(
            SignupFlow { request, new_user, phase: SignupPhase::RollingBack(e) },
            StoreAction::Rollback,
        ),
{
    Progress::Next(
        SignupFlow { request, new_user, phase: SignupPhase::RollingBack(e) },
        StoreAction::Rollback,
    )
}

fn profile_action(request: &SignupRequest, user_id: u128) -> (r: StoreAction)
    ensures
        r == profile_insert(*request, user_id),
{
    match request {
        SignupRequest::Organizer(_) => StoreAction::InsertOrganizerData { user_id },
        SignupRequest::Attendee(r) => StoreAction::InsertAttendeeData {
            user_id,
            phone: r.phone.clone(),
            birth_date: r.birth_date,
        },
    }
}

/// Where a signup stands after the store has given `replies`, one per action,
/// in order. Replies past the outcome are not read.
pub open spec fn drive(p: Progress, replies: Seq<StoreReply>) -> Progress
    decreases replies.len(),
{
    if replies.len() == 0 {
        p
    } else {
        match p {
            Progress::Next(f, _) => drive(f.transition(replies[0]), replies.drop_first()),
            Progress::Done(_) => p,
        }
    }
}

/// The actions that a signup asks for while the store gives `replies`.
pub open spec fn issued(p: Progress, replies: Seq<StoreReply>) -> Seq<StoreAction>
    decreases replies.len(),
{
    match p {
        Progress::Next(f, a) => if replies.len() == 0 {
            seq![a]
        } else {
            seq![a] + issued(f.transition(replies[0]), replies.drop_first())
        },
        Progress::Done(_) => Seq::empty(),
    }
}

/// Whether the store confirmed a commit that the signup asked for, so that
/// its rows became visible.
pub open spec fn commits(p: Progress, replies: Seq<StoreReply>) -> bool
    decreases replies.len(),
{
    match p {
        Progress::Next(f, a) => replies.len() > 0 && (a is Commit && replies[0] is Committed
            || commits(f.transition(replies[0]), replies.drop_first())),
        Progress::Done(_) => false,
    }
}

/// A signup that is rolling back ends in the error it holds and commits nothing.
proof fn lemma_rollback_ends_in_error(f: SignupFlow, replies: Seq<StoreReply>)
    requires
        f.phase is RollingBack,
    ensures
        drive(Progress::Next(f, StoreAction::Rollback), replies) is Next || drive(
            Progress::Next(f, StoreAction::Rollback),
            replies,
        ) == Progress::Done(Err(f.phase->RollingBack_0)),
        !commits(Progress::Next(f, StoreAction::Rollback), replies),
{
    if replies.len() > 0 {
        let rest = replies.drop_first();
        assert(drive(Progress::Done(Err(f.phase->RollingBack_0)), rest) == Progress::Done(
            Err::<(User, RelatedData), ApiError>(f.phase->RollingBack_0),
        ));
        assert(!commits(Progress::Done(Err(f.phase->RollingBack_0)), rest));
    }
}

/// A signup that has ended stays where it is.
proof fn lemma_done_stays(r: Result<(User, RelatedData), ApiError>, replies: Seq<StoreReply>)
    ensures
        drive(Progress::Done(r), replies) == Progress::Done(r),
        !commits(Progress::Done(r), replies),
        issued(Progress::Done(r), replies) == Seq::<StoreAction>::empty(),
{
}

/// A successful organizer signup writes exactly one user row and one
/// organizer profile row, and commits them together: the actions are the
/// transaction, the user insert, the profile insert for the id that the store
/// gave the user, and the commit. The profile belongs to the user, and the
/// user agrees with the request.
pub proof fn lemma_organizer_signup_commits_user_and_profile(
    f: SignupFlow,
    replies: Seq<StoreReply>,
)
    requires
        f.phase is Beginning,
        f.request is Organizer,
        f.wf(),
        drive(Progress::Next(f, StoreAction::Begin), replies) is Done,
        drive(Progress::Next(f, StoreAction::Begin), replies)->Done_0 is Ok,
    ensures
        ({
            let p = Progress::Next(f, StoreAction::Begin);
            let (u, d) = drive(p, replies)->Done_0->Ok_0;
            &&& d is Organizer
            &&& d->Organizer_0.user_id == u.id
            &&& f.new_user.describes(u)
            &&& u.full_name@ == request_full_name(f.request)
            &&& u.role == requested_role(f.request)
            &&& u.email@ == request_email(f.request)
            &&& u.gov_identification == request_gov_identification(f.request)
            &&& commits(p, replies)
            &&& issued(p, replies) == seq![
                StoreAction::Begin,
                StoreAction::InsertUser(f.new_user),
                StoreAction::InsertOrganizerData { user_id: u.id },
                StoreAction::Commit,
            ]
            &&& replies.len() >= 4
            &&& replies[0] is Begun
            &&& replies[1] is UserInserted && row_user(replies[1]->UserInserted_0) == u
            &&& replies[2] == StoreReply::OrganizerInserted(d->Organizer_0)
            &&& replies[3] is Committed
        }),
{
    let p0 = Progress::Next(f, StoreAction::Begin);
    let r0 = replies[0];
    let rest1 = replies.drop_first();
    let p1 = f.transition(r0);
    lemma_step_keeps_error(f, r0, rest1);
    let f1 = f.with_phase(SignupPhase::InsertingUser);
    assert(p1 == Progress::Next(f1, StoreAction::InsertUser(f.new_user)));
    let r1 = rest1[0];
    let rest2 = rest1.drop_first();
    let p2 = f1.transition(r1);
    lemma_step_keeps_error(f1, r1, rest2);
    let u = row_user(r1->UserInserted_0);
    let f2 = f.with_phase(SignupPhase::InsertingProfile(u));
    assert(p2 == Progress::Next(f2, StoreAction::InsertOrganizerData { user_id: u.id }));
    let r2 = rest2[0];
    let rest3 = rest2.drop_first();
    let p3 = f2.transition(r2);
    lemma_step_keeps_error(f2, r2, rest3);
    let o = r2->OrganizerInserted_0;
    let f3 = f.with_phase(SignupPhase::Committing(u, RelatedData::Organizer(o)));
    assert(p3 == Progress::Next(f3, StoreAction::Commit));
    let r3 = rest3[0];
    let rest4 = rest3.drop_first();
    lemma_step_keeps_error(f3, r3, rest4);
    assert(f3.transition(r3) == Progress::Done(Ok::<(User, RelatedData), ApiError>((u, RelatedData::Organizer(o)))));
    lemma_done_stays(Ok((u, RelatedData::Organizer(o))), rest4);
    let done = Progress::Done(Ok::<(User, RelatedData), ApiError>((u, RelatedData::Organizer(o))));
    assert(drive(p3, rest3) == done);
    assert(drive(p2, rest2) == done);
    assert(drive(p1, rest1) == done);
    assert(drive(p0, replies) == done);
    assert(commits(p3, rest3));
    assert(commits(p2, rest2));
    assert(commits(p1, rest1));
    assert(commits(p0, replies));
    assert(issued(p3, rest3) == seq![StoreAction::Commit]);
    assert(issued(p2, rest2) =~= seq![StoreAction::InsertOrganizerData { user_id: u.id }, StoreAction::Commit]);
    assert(issued(p1, rest1) =~= seq![StoreAction::InsertUser(f.new_user), StoreAction::InsertOrganizerData { user_id: u.id }, StoreAction::Commit]);
    assert(issued(p0, replies) =~= seq![StoreAction::Begin, StoreAction::InsertUser(f.new_user), StoreAction::InsertOrganizerData { user_id: u.id }, StoreAction::Commit]);
    assert(rest1[0] == replies[1] && rest2[0] == replies[2] && rest3[0] == replies[3]);
}

/// A successful attendee signup writes exactly one user row and one attendee
/// profile row, and commits them together. The profile belongs to the user
/// and holds the phone and birth date of the request unchanged.
pub proof fn lemma_attendee_signup_commits_user_and_profile(
    f: SignupFlow,
    replies: Seq<StoreReply>,
)
    requires
        f.phase is Beginning,
        f.request is Attendee,
        f.wf(),
        drive(Progress::Next(f, StoreAction::Begin), replies) is Done,
        drive(Progress::Next(f, StoreAction::Begin), replies)->Done_0 is Ok,
    ensures
        ({
            let p = Progress::Next(f, StoreAction::Begin);
            let (u, d) = drive(p, replies)->Done_0->Ok_0;
            let req = f.request->Attendee_0;
            &&& d is Attendee
            &&& d->Attendee_0.user_id == u.id
            &&& d->Attendee_0.phone@ == req.phone@
            &&& d->Attendee_0.birth_date == req.birth_date
            &&& f.new_user.describes(u)
            &&& u.full_name@ == request_full_name(f.request)
            &&& u.role == requested_role(f.request)
            &&& u.email@ == request_email(f.request)
            &&& u.gov_identification == request_gov_identification(f.request)
            &&& commits(p, replies)
            &&& issued(p, replies) == seq![
                StoreAction::Begin,
                StoreAction::InsertUser(f.new_user),
                StoreAction::InsertAttendeeData {
                    user_id: u.id,
                    phone: req.phone,
                    birth_date: req.birth_date,
                },
                StoreAction::Commit,
            ]
            &&& replies.len() >= 4
            &&& replies[0] is Begun
            &&& replies[1] is UserInserted && row_user(replies[1]->UserInserted_0) == u
            &&& replies[2] == StoreReply::AttendeeInserted(d->Attendee_0)
            &&& replies[3] is Committed
        }),
{
    let req = f.request->Attendee_0;
    let p0 = Progress::Next(f, StoreAction::Begin);
    let r0 = replies[0];
    let rest1 = replies.drop_first();
    let p1 = f.transition(r0);
    lemma_step_keeps_error(f, r0, rest1);
    let f1 = f.with_phase(SignupPhase::InsertingUser);
    assert(p1 == Progress::Next(f1, StoreAction::InsertUser(f.new_user)));
    let r1 = rest1[0];
    let rest2 = rest1.drop_first();
    let p2 = f1.transition(r1);
    lemma_step_keeps_error(f1, r1, rest2);
    let u = row_user(r1->UserInserted_0);
    let f2 = f.with_phase(SignupPhase::InsertingProfile(u));
    let ins = StoreAction::InsertAttendeeData {
        user_id: u.id,
        phone: req.phone,
        birth_date: req.birth_date,
    };
    assert(p2 == Progress::Next(f2, ins));
    let r2 = rest2[0];
    let rest3 = rest2.drop_first();
    let p3 = f2.transition(r2);
    lemma_step_keeps_error(f2, r2, rest3);
    let a = r2->AttendeeInserted_0;
    let f3 = f.with_phase(SignupPhase::Committing(u, RelatedData::Attendee(a)));
    assert(p3 == Progress::Next(f3, StoreAction::Commit));
    let r3 = rest3[0];
    let rest4 = rest3.drop_first();
    lemma_step_keeps_error(f3, r3, rest4);
    let done = Progress::Done(Ok::<(User, RelatedData), ApiError>((u, RelatedData::Attendee(a))));
    assert(f3.transition(r3) == done);
    lemma_done_stays(Ok((u, RelatedData::Attendee(a))), rest4);
    assert(drive(p3, rest3) == done);
    assert(drive(p2, rest2) == done);
    assert(drive(p1, rest1) == done);
    assert(drive(p0, replies) == done);
    assert(commits(p3, rest3));
    assert(commits(p2, rest2));
    assert(commits(p1, rest1));
    assert(commits(p0, replies));
    assert(issued(p3, rest3) == seq![StoreAction::Commit]);
    assert(issued(p2, rest2) =~= seq![ins, StoreAction::Commit]);
    assert(issued(p1, rest1) =~= seq![StoreAction::InsertUser(f.new_user), ins, StoreAction::Commit]);
    assert(issued(p0, replies) =~= seq![
        StoreAction::Begin,
        StoreAction::InsertUser(f.new_user),
        ins,
        StoreAction::Commit,
    ]);
    assert(rest1[0] == replies[1] && rest2[0] == replies[2] && rest3[0] == replies[3]);
}

/// The actions of a signup in progress match its phase: a commit is asked
/// for only once both rows are in.
pub open spec fn consistent(p: Progress) -> bool {
    p is Next && p->Next_1 is Commit ==> p->Next_0.phase is Committing
}

/// A signup that ends in an error has committed nothing: whatever it wrote
/// was rolled back, or never became visible.
pub proof fn lemma_failed_signup_commits_nothing(p: Progress, replies: Seq<StoreReply>)
    requires
        consistent(p),
        drive(p, replies) is Done,
        drive(p, replies)->Done_0 is Err,
    ensures
        !commits(p, replies),
    decreases replies.len(),
{
    if replies.len() > 0 {
        if let Progress::Next(f, a) = p {
            let next = f.transition(replies[0]);
            let rest = replies.drop_first();
            assert(consistent(next));
            if a is Commit && replies[0] is Committed {
                lemma_done_stays(next->Done_0, rest);
                assert(false);
            }
            lemma_failed_signup_commits_nothing(next, rest);
        }
    }
}

/// A signup whose user row collides with an existing email or government id
/// ends in a conflict on that field, rolls its transaction back and commits
/// nothing, so the store is left as it was.
pub proof fn lemma_duplicate_signup_is_conflict(
    f: SignupFlow,
    failure: StoreFailure,
    replies: Seq<StoreReply>,
)
    requires
        f.phase is Beginning,
        failure.code is Some,
        failure.code->Some_0@ == unique_violation_code(),
        replies.len() >= 3,
        replies[0] is Begun,
        replies[1] == StoreReply::Failed(failure),
    ensures
        ({
            let p = Progress::Next(f, StoreAction::Begin);
            let field = if failure.constraint is Some {
                constraint_field(failure.constraint->Some_0@)
            } else {
                ConflictField::Other
            };
            &&& drive(p, replies) == Progress::Done(
                Err::<(User, RelatedData), ApiError>(ApiError::Conflict(field)),
            )
            &&& !commits(p, replies)
            &&& issued(p, replies) == seq![
                StoreAction::Begin,
                StoreAction::InsertUser(f.new_user),
                StoreAction::Rollback,
            ]
        }),
{
    let p0 = Progress::Next(f, StoreAction::Begin);
    let rest1 = replies.drop_first();
    let f1 = f.with_phase(SignupPhase::InsertingUser);
    let p1 = f.transition(replies[0]);
    assert(p1 == Progress::Next(f1, StoreAction::InsertUser(f.new_user)));
    let e = store_error(failure);
    let rest2 = rest1.drop_first();
    let f2 = f.with_phase(SignupPhase::RollingBack(e));
    let p2 = f1.transition(rest1[0]);
    assert(p2 == Progress::Next(f2, StoreAction::Rollback));
    let rest3 = rest2.drop_first();
    let done = Progress::Done(Err::<(User, RelatedData), ApiError>(e));
    assert(f2.transition(rest2[0]) == done);
    lemma_done_stays(Err(e), rest3);
    assert(drive(p2, rest2) == done);
    assert(drive(p1, rest1) == done);
    assert(drive(p0, replies) == done);
    assert(!commits(p2, rest2));
    assert(!commits(p1, rest1));
    assert(!commits(p0, replies));
    assert(issued(p2, rest2) == seq![StoreAction::Rollback]);
    assert(issued(p1, rest1) =~= seq![StoreAction::InsertUser(f.new_user), StoreAction::Rollback]);
    assert(issued(p0, replies) =~= seq![
        StoreAction::Begin,
        StoreAction::InsertUser(f.new_user),
        StoreAction::Rollback,
    ]);
}

/// When the store does what it is asked, an organizer signup succeeds with
/// the user row that the store returned and the profile that belongs to it.
pub proof fn lemma_organizer_signup_succeeds_on_cooperative_store(
    f: SignupFlow,
    row: UserRow,
    profile: OrganizerData,
)
    requires
        f.phase is Beginning,
        f.request is Organizer,
        f.new_user.describes(row_user(row)),
        profile.user_id == row.id,
    ensures
        drive(
            Progress::Next(f, StoreAction::Begin),
            seq![
                StoreReply::Begun,
                StoreReply::UserInserted(row),
                StoreReply::OrganizerInserted(profile),
                StoreReply::Committed,
            ],
        ) == Progress::Done(
            Ok::<(User, RelatedData), ApiError>((row_user(row), RelatedData::Organizer(profile))),
        ),
{
    let replies = seq![
        StoreReply::Begun,
        StoreReply::UserInserted(row),
        StoreReply::OrganizerInserted(profile),
        StoreReply::Committed,
    ];
    let u = row_user(row);
    let f1 = f.with_phase(SignupPhase::InsertingUser);
    let f2 = f.with_phase(SignupPhase::InsertingProfile(u));
    let f3 = f.with_phase(SignupPhase::Committing(u, RelatedData::Organizer(profile)));
    let done = Progress::Done(
        Ok::<(User, RelatedData), ApiError>((u, RelatedData::Organizer(profile))),
    );
    assert(f.transition(replies[0]) == Progress::Next(f1, StoreAction::InsertUser(f.new_user)));
    assert(f1.transition(replies[1]) == Progress::Next(
        f2,
        StoreAction::InsertOrganizerData { user_id: u.id },
    ));
    assert(f2.transition(replies[2]) == Progress::Next(f3, StoreAction::Commit));
    assert(f3.transition(replies[3]) == done);
    let r1 = replies.drop_first();
    let r2 = r1.drop_first();
    let r3 = r2.drop_first();
    let r4 = r3.drop_first();
    assert(r1[0] == replies[1]);
    assert(r2[0] == replies[2]);
    assert(r3[0] == replies[3]);
    assert(r4.len() == 0);
    assert(drive(done, r4) == done);
    assert(drive(Progress::Next(f3, StoreAction::Commit), r3) == done);
    assert(drive(Progress::Next(f2, StoreAction::InsertOrganizerData { user_id: u.id }), r2)
        == done);
    assert(drive(Progress::Next(f1, StoreAction::InsertUser(f.new_user)), r1) == done);
}

/// When the store does what it is asked, an attendee signup succeeds with the
/// user row that the store returned and the profile that belongs to it, whose
/// phone and birth date are those of the request.
pub proof fn lemma_attendee_signup_succeeds_on_cooperative_store(
    f: SignupFlow,
    row: UserRow,
    profile: AttendeeData,
)
    requires
        f.phase is Beginning,
        f.request is Attendee,
        f.new_user.describes(row_user(row)),
        profile.user_id == row.id,
        profile.phone@ == f.request->Attendee_0.phone@,
        profile.birth_date == f.request->Attendee_0.birth_date,
    ensures
        drive(
            Progress::Next(f, StoreAction::Begin),
            seq![
                StoreReply::Begun,
                StoreReply::UserInserted(row),
                StoreReply::AttendeeInserted(profile),
                StoreReply::Committed,
            ],
        ) == Progress::Done(
            Ok::<(User, RelatedData), ApiError>((row_user(row), RelatedData::Attendee(profile))),
        ),
{
    let req = f.request->Attendee_0;
    let replies = seq![
        StoreReply::Begun,
        StoreReply::UserInserted(row),
        StoreReply::AttendeeInserted(profile),
        StoreReply::Committed,
    ];
    let u = row_user(row);
    let ins = StoreAction::InsertAttendeeData {
        user_id: u.id,
        phone: req.phone,
        birth_date: req.birth_date,
    };
    let f1 = f.with_phase(SignupPhase::InsertingUser);
    let f2 = f.with_phase(SignupPhase::InsertingProfile(u));
    let f3 = f.with_phase(SignupPhase::Committing(u, RelatedData::Attendee(profile)));
    let done = Progress::Done(
        Ok::<(User, RelatedData), ApiError>((u, RelatedData::Attendee(profile))),
    );
    assert(f.transition(replies[0]) == Progress::Next(f1, StoreAction::InsertUser(f.new_user)));
    assert(f1.transition(replies[1]) == Progress::Next(f2, ins));
    assert(f2.transition(replies[2]) == Progress::Next(f3, StoreAction::Commit));
    assert(f3.transition(replies[3]) == done);
    let r1 = replies.drop_first();
    let r2 = r1.drop_first();
    let r3 = r2.drop_first();
    let r4 = r3.drop_first();
    assert(r1[0] == replies[1]);
    assert(r2[0] == replies[2]);
    assert(r3[0] == replies[3]);
    assert(r4.len() == 0);
    assert(drive(done, r4) == done);
    assert(drive(Progress::Next(f3, StoreAction::Commit), r3) == done);
    assert(drive(Progress::Next(f2, ins), r2) == done);
    assert(drive(Progress::Next(f1, StoreAction::InsertUser(f.new_user)), r1) == done);
}

/// The rows of the three tables that a signup writes to, as a model of the
/// store's committed state.
pub struct StoreTables {
    pub users: Seq<UserRow>,
    pub organizer_data: Seq<OrganizerData>,
    pub attendee_data: Seq<AttendeeData>,
}

/// No rows at all.
pub open spec fn no_rows() -> StoreTables {
    StoreTables { users: Seq::empty(), organizer_data: Seq::empty(), attendee_data: Seq::empty() }
}

/// The rows of `a` followed by those of `b`, table by table.
pub open spec fn with_rows(a: StoreTables, b: StoreTables) -> StoreTables {
    StoreTables {
        users: a.users + b.users,
        organizer_data: a.organizer_data + b.organizer_data,
        attendee_data: a.attendee_data + b.attendee_data,
    }
}

/// The rows written so far in a transaction, after the store's reply.
pub open spec fn record(pending: StoreTables, reply: StoreReply) -> StoreTables {
    match reply {
        StoreReply::UserInserted(row) => StoreTables { users: pending.users.push(row), ..pending },
        StoreReply::OrganizerInserted(o) => StoreTables {
            organizer_data: pending.organizer_data.push(o),
            ..pending
        },
        StoreReply::AttendeeInserted(a) => StoreTables {
            attendee_data: pending.attendee_data.push(a),
            ..pending
        },
        _ => pending,
    }
}

/// The committed state of the store after a signup that starts from `db`,
/// with `pending` rows already written in its open transaction, while the
/// store gives `replies`. Rows that the store reports inserted become
/// visible only when the store confirms the commit; a commit or a rollback
/// closes the transaction.
pub open spec fn store_after(
    db: StoreTables,
    pending: StoreTables,
    p: Progress,
    replies: Seq<StoreReply>,
) -> StoreTables
    decreases replies.len(),
{
    match p {
        Progress::Next(f, a) => if replies.len() == 0 {
            db
        } else {
            let r = replies[0];
            let db2 = if a is Commit && r is Committed {
                with_rows(db, pending)
            } else {
                db
            };
            let pending2 = if a is Commit || a is Rollback {
                no_rows()
            } else {
                record(pending, r)
            };
            store_after(db2, pending2, f.transition(r), replies.drop_first())
        },
        Progress::Done(_) => db,
    }
}

/// Without a confirmed commit the store is left exactly as it was.
proof fn lemma_no_commit_keeps_store(
    db: StoreTables,
    pending: StoreTables,
    p: Progress,
    replies: Seq<StoreReply>,
)
    requires
        !commits(p, replies),
    ensures
        store_after(db, pending, p, replies) == db,
    decreases replies.len(),
{
    if replies.len() > 0 {
        if let Progress::Next(f, a) = p {
            let r = replies[0];
            let pending2 = if a is Commit || a is Rollback {
                no_rows()
            } else {
                record(pending, r)
            };
            lemma_no_commit_keeps_store(db, pending2, f.transition(r), replies.drop_first());
        }
    }
}

/// A signup that ends in an error, a conflict among them, leaves the store's
/// tables exactly as they were before the attempt: no user row and no
/// profile row of it remains.
pub proof fn lemma_failed_signup_leaves_store_unchanged(
    db: StoreTables,
    f: SignupFlow,
    replies: Seq<StoreReply>,
)
    requires
        f.phase is Beginning,
        drive(Progress::Next(f, StoreAction::Begin), replies) is Done,
        drive(Progress::Next(f, StoreAction::Begin), replies)->Done_0 is Err,
    ensures
        store_after(db, no_rows(), Progress::Next(f, StoreAction::Begin), replies) == db,
{
    let p = Progress::Next(f, StoreAction::Begin);
    lemma_failed_signup_commits_nothing(p, replies);
    lemma_no_commit_keeps_store(db, no_rows(), p, replies);
}

/// After a successful organizer signup the store holds exactly one more user
/// row, the one returned for the new user, and exactly one more organizer
/// profile row, which belongs to that user; the attendee table is untouched.
pub proof fn lemma_organizer_signup_adds_one_user_and_one_profile(
    db: StoreTables,
    f: SignupFlow,
    replies: Seq<StoreReply>,
)
    requires
        f.phase is Beginning,
        f.request is Organizer,
        f.wf(),
        drive(Progress::Next(f, StoreAction::Begin), replies) is Done,
        drive(Progress::Next(f, StoreAction::Begin), replies)->Done_0 is Ok,
    ensures
        ({
            let p = Progress::Next(f, StoreAction::Begin);
            let (u, d) = drive(p, replies)->Done_0->Ok_0;
            let row = replies[1]->UserInserted_0;
            &&& d is Organizer
            &&& row.id == u.id
            &&& d->Organizer_0.user_id == u.id
            &&& store_after(db, no_rows(), p, replies) == StoreTables {
                users: db.users.push(row),
                organizer_data: db.organizer_data.push(d->Organizer_0),
                attendee_data: db.attendee_data,
            }
        }),
{
    lemma_organizer_signup_commits_user_and_profile(f, replies);
    let p0 = Progress::Next(f, StoreAction::Begin);
    let (u, d) = drive(p0, replies)->Done_0->Ok_0;
    let row = replies[1]->UserInserted_0;
    let o = d->Organizer_0;
    let r1 = replies.drop_first();
    let r2 = r1.drop_first();
    let r3 = r2.drop_first();
    let r4 = r3.drop_first();
    assert(r1[0] == replies[1] && r2[0] == replies[2] && r3[0] == replies[3]);
    let f1 = f.with_phase(SignupPhase::InsertingUser);
    let f2 = f.with_phase(SignupPhase::InsertingProfile(u));
    let f3 = f.with_phase(SignupPhase::Committing(u, RelatedData::Organizer(o)));
    let p1 = Progress::Next(f1, StoreAction::InsertUser(f.new_user));
    let p2 = Progress::Next(f2, StoreAction::InsertOrganizerData { user_id: u.id });
    let p3 = Progress::Next(f3, StoreAction::Commit);
    let done = Progress::Done(Ok::<(User, RelatedData), ApiError>((u, d)));
    assert(f.transition(replies[0]) == p1);
    assert(f1.transition(replies[1]) == p2);
    assert(f2.transition(replies[2]) == p3);
    assert(f3.transition(replies[3]) == done);
    let pend2 = record(no_rows(), replies[1]);
    let pend3 = record(pend2, replies[2]);
    let after = with_rows(db, pend3);
    assert(store_after(after, no_rows(), done, r4) == after);
    assert(store_after(db, pend3, p3, r3) == after);
    assert(store_after(db, pend2, p2, r2) == after);
    assert(store_after(db, no_rows(), p1, r1) == after);
    assert(store_after(db, no_rows(), p0, replies) == after);
    assert(after == StoreTables {
        users: db.users.push(row),
        organizer_data: db.organizer_data.push(o),
        attendee_data: db.attendee_data,
    }) by {
        assert(after.users =~= db.users.push(row));
        assert(after.organizer_data =~= db.organizer_data.push(o));
        assert(after.attendee_data =~= db.attendee_data);
    }
}

/// After a successful attendee signup the store holds exactly one more user
/// row, the one returned for the new user, and exactly one more attendee
/// profile row, which belongs to that user and holds the request's phone and
/// birth date; the organizer table is untouched.
pub proof fn lemma_attendee_signup_adds_one_user_and_one_profile(
    db: StoreTables,
    f: SignupFlow,
    replies: Seq<StoreReply>,
)
    requires
        f.phase is Beginning,
        f.request is Attendee,
        f.wf(),
        drive(Progress::Next(f, StoreAction::Begin), replies) is Done,
        drive(Progress::Next(f, StoreAction::Begin), replies)->Done_0 is Ok,
    ensures
        ({
            let p = Progress::Next(f, StoreAction::Begin);
            let (u, d) = drive(p, replies)->Done_0->Ok_0;
            let row = replies[1]->UserInserted_0;
            let req = f.request->Attendee_0;
            &&& d is Attendee
            &&& row.id == u.id
            &&& d->Attendee_0.user_id == u.id
            &&& d->Attendee_0.phone@ == req.phone@
            &&& d->Attendee_0.birth_date == req.birth_date
            &&& store_after(db, no_rows(), p, replies) == StoreTables {
                users: db.users.push(row),
                organizer_data: db.organizer_data,
                attendee_data: db.attendee_data.push(d->Attendee_0),
            }
        }),
{
    lemma_attendee_signup_commits_user_and_profile(f, replies);
    let req = f.request->Attendee_0;
    let p0 = Progress::Next(f, StoreAction::Begin);
    let (u, d) = drive(p0, replies)->Done_0->Ok_0;
    let row = replies[1]->UserInserted_0;
    let a = d->Attendee_0;
    let r1 = replies.drop_first();
    let r2 = r1.drop_first();
    let r3 = r2.drop_first();
    let r4 = r3.drop_first();
    assert(r1[0] == replies[1] && r2[0] == replies[2] && r3[0] == replies[3]);
    let ins = StoreAction::InsertAttendeeData {
        user_id: u.id,
        phone: req.phone,
        birth_date: req.birth_date,
    };
    let f1 = f.with_phase(SignupPhase::InsertingUser);
    let f2 = f.with_phase(SignupPhase::InsertingProfile(u));
    let f3 = f.with_phase(SignupPhase::Committing(u, RelatedData::Attendee(a)));
    let p1 = Progress::Next(f1, StoreAction::InsertUser(f.new_user));
    let p2 = Progress::Next(f2, ins);
    let p3 = Progress::Next(f3, StoreAction::Commit);
    let done = Progress::Done(Ok::<(User, RelatedData), ApiError>((u, d)));
    assert(f.transition(replies[0]) == p1);
    assert(f1.transition(replies[1]) == p2);
    assert(f2.transition(replies[2]) == p3);
    assert(f3.transition(replies[3]) == done);
    let pend2 = record(no_rows(), replies[1]);
    let pend3 = record(pend2, replies[2]);
    let after = with_rows(db, pend3);
    assert(store_after(after, no_rows(), done, r4) == after);
    assert(store_after(db, pend3, p3, r3) == after);
    assert(store_after(db, pend2, p2, r2) == after);
    assert(store_after(db, no_rows(), p1, r1) == after);
    assert(store_after(db, no_rows(), p0, replies) == after);
    assert(after == StoreTables {
        users: db.users.push(row),
        organizer_data: db.organizer_data,
        attendee_data: db.attendee_data.push(a),
    }) by {
        assert(after.users =~= db.users.push(row));
        assert(after.organizer_data =~= db.organizer_data);
        assert(after.attendee_data =~= db.attendee_data.push(a));
    }
}

/// One step from a signup in progress: where the step rolls back or ends in
/// an error, the signup ends in an error and commits nothing; where it does
/// not reach the store's replies, it has not ended.
proof fn lemma_step_keeps_error(f: SignupFlow, reply: StoreReply, rest: Seq<StoreReply>)
    ensures
        f.transition(reply) is Done && f.transition(reply)->Done_0 is Err ==> drive(
            f.transition(reply),
            rest,
        ) == f.transition(reply) && !commits(f.transition(reply), rest),
        f.transition(reply) is Next && f.transition(reply)->Next_1 is Rollback ==> (
            !(drive(f.transition(reply), rest) is Done && drive(f.transition(reply), rest)->Done_0 is Ok)
            && !commits(f.transition(reply), rest)),
{
    match f.transition(reply) {
        Progress::Done(r) => lemma_done_stays(r, rest),
        Progress::Next(g, a) => {
            if a is Rollback {
                lemma_rollback_ends_in_error(g, rest);
            }
        },
    }
}

} // verus!
