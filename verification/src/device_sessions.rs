//! Logins in progress: each waits for its user to authorise a device code at GitHub.
//!
//! Times are nanoseconds since some fixed origin.

use vstd::prelude::*;

use crate::github::DeviceAuthStart;
use crate::messages::StartGithubDeviceAuthResponse;
use crate::status::{Code, Status, StatusView};
use crate::text::same_text;
use crate::{assoc, status};

verus! {

/// A login in progress.
#[derive(Clone, Debug)]
pub struct GithubDeviceSession {
    pub device_code: String,
    pub expires_at: u128,
    pub interval: i64,
}

pub struct DeviceSessionView {
    pub device_code: Seq<char>,
    pub expires_at: u128,
    pub interval: i64,
}

impl View for GithubDeviceSession {
    type V = DeviceSessionView;

    open spec fn view(&self) -> DeviceSessionView {
        DeviceSessionView {
            device_code: self.device_code@,
            expires_at: self.expires_at,
            interval: self.interval,
        }
    }
}

/// The logins of a list, each with its identifier.
pub open spec fn session_views(v: Seq<(String, GithubDeviceSession)>) -> Seq<
    (Seq<char>, DeviceSessionView),
> {
    v.map_values(|s: (String, GithubDeviceSession)| (s.0@, s.1@))
}

/// The property of a login that has not expired at `now`.
pub open spec fn unexpired(now: u128) -> spec_fn(DeviceSessionView) -> bool {
    |s: DeviceSessionView| s.expires_at > now
}

/// The login with the identifier `id` at `now`, or why there is none.
pub open spec fn session_at(
    sessions: Map<Seq<char>, DeviceSessionView>,
    id: Seq<char>,
    now: u128,
) -> Result<DeviceSessionView, StatusView> {
    if !sessions.contains_key(id) {
        Err(status::refusal(Code::NotFound, "unknown GitHub OAuth session"@))
    } else if now >= sessions[id].expires_at {
        Err(
            status::refusal(
                Code::DeadlineExceeded,
                "GitHub OAuth device authorization expired"@,
            ),
        )
    } else {
        Ok(sessions[id])
    }
}

/// The number of seconds, or one where that is less than one.
pub open spec fn at_least_one(seconds: i64) -> i64 {
    if seconds >= 1 {
        seconds
    } else {
        1
    }
}

/// The time `seconds` after `now`.
pub open spec fn deadline(now: u128, seconds: i64) -> int {
    now + at_least_one(seconds) * 1_000_000_000
}

/// The logins in progress, by identifier.
pub struct DeviceSessions {
    sessions: Vec<(String, GithubDeviceSession)>,
}

impl DeviceSessions {
    /// No identifier is in use twice.
    pub closed spec fn wf(&self) -> bool {
        assoc::distinct(session_views(self.sessions@))
    }

    /// Each identifier with its login.
    pub closed spec fn known(&self) -> Map<Seq<char>, DeviceSessionView> {
        assoc::as_map(session_views(self.sessions@))
    }

    /// No login is in progress.
    pub fn new() -> (r: DeviceSessions)
        ensures
            r.wf(),
            r.known() == Map::<Seq<char>, DeviceSessionView>::empty(),
    {
        let r = DeviceSessions { sessions: Vec::new() };
        assert(assoc::as_map(session_views(r.sessions@)) =~= Map::empty());
        r
    }

    fn find(&self, id: &str) -> (r: Option<usize>)
        requires
            self.wf(),
        ensures
            match r {
                Some(i) => {
                    &&& i < self.sessions@.len()
                    &&& session_views(self.sessions@)[i as int].0 == id@
                    &&& self.known().contains_key(id@)
                    &&& self.known()[id@] == self.sessions@[i as int].1@
                },
                None => !assoc::has_key(session_views(self.sessions@), id@)
                    && !self.known().contains_key(id@),
            },
    {
        let ghost views = session_views(self.sessions@);
        let mut i: usize = 0;
        while i < self.sessions.len()
            invariant
                i <= self.sessions.len(),
                self.wf(),
                views == session_views(self.sessions@),
                forall|j: int| 0 <= j < i ==> (#[trigger] views[j]).0 != id@,
            decreases self.sessions.len() - i,
        {
            assert(views[i as int].0 == self.sessions@[i as int].0@);
            if same_text(self.sessions[i].0.as_str(), id) {
                proof {
                    assoc::lemma_lookup(views, i as int);
                }
                return Some(i);
            }
            i += 1;
        }
        None
    }

    /// Drops the logins that have expired at `now`.
    pub fn prune_expired(&mut self, now: u128)
        requires
            old(self).wf(),
        ensures
            final(self).wf(),
            final(self).known() == assoc::kept(old(self).known(), unexpired(now)),
    {
        let ghost views = session_views(self.sessions@);
        let ghost keep = unexpired(now);
        let mut active: Vec<(String, GithubDeviceSession)> = Vec::new();
        let mut i: usize = 0;
        assert(assoc::as_map(session_views(active@)) =~= assoc::kept(
            assoc::as_map(views.take(0)),
            keep,
        ));
        while i < self.sessions.len()
            invariant
                i <= self.sessions.len(),
                views == session_views(self.sessions@),
                keep == unexpired(now),
                assoc::distinct(views),
                assoc::distinct(session_views(active@)),
                assoc::as_map(session_views(active@)) == assoc::kept(
                    assoc::as_map(views.take(i as int)),
                    keep,
                ),
            decreases self.sessions.len() - i,
        {
            let ghost before = active@;
            proof {
                assoc::lemma_keep_step(views, i as int, session_views(active@), keep);
            }
            let session = &self.sessions[i];
            if session.1.expires_at > now {
                let kept = GithubDeviceSession {
                    device_code: session.1.device_code.clone(),
                    expires_at: session.1.expires_at,
                    interval: session.1.interval,
                };
                active.push((session.0.clone(), kept));
                assert(session_views(active@) =~= session_views(before).push(views[i as int]));
            }
            i += 1;
        }
        assert(views.take(i as int) =~= views);
        self.sessions = active;
    }

    /// The login with the identifier `auth_session_id`, unless it has expired at `now`; one
    /// that has expired is dropped.
    pub fn lookup(&mut self, auth_session_id: &str, now: u128) -> (r: Result<
        GithubDeviceSession,
        Status,
    >)
        requires
            old(self).wf(),
        ensures
            final(self).wf(),
            match session_at(old(self).known(), auth_session_id@, now) {
                Ok(session) => r matches Ok(found) && found@ == session && final(self).known()
                    == old(self).known(),
                Err(failure) => r matches Err(status) && status@ == failure && final(self).known()
                    == old(self).known().remove(auth_session_id@),
            },
    {
        match self.find(auth_session_id) {
            None => {
                assert(self.known().remove(auth_session_id@) =~= self.known());
                Err(Status::new(Code::NotFound, "unknown GitHub OAuth session"))
            },
            Some(i) => {
                if now >= self.sessions[i].1.expires_at {
                    self.remove(auth_session_id);
                    return Err(
                        Status::new(
                            Code::DeadlineExceeded,
                            "GitHub OAuth device authorization expired",
                        ),
                    );
                }
                let session = &self.sessions[i].1;
                Ok(
                    GithubDeviceSession {
                        device_code: session.device_code.clone(),
                        expires_at: session.expires_at,
                        interval: session.interval,
                    },
                )
            },
        }
    }

    /// Drops the login with the identifier `auth_session_id`.
    pub fn remove(&mut self, auth_session_id: &str)
        requires
            old(self).wf(),
        ensures
            final(self).wf(),
            final(self).known() == old(self).known().remove(auth_session_id@),
    {
        let ghost views = session_views(self.sessions@);
        match self.find(auth_session_id) {
            Some(i) => {
                proof {
                    assoc::lemma_remove(views, i as int);
                }
                self.sessions.remove(i);
                assert(session_views(self.sessions@) =~= views.remove(i as int));
            },
            None => {
                assert(self.known().remove(auth_session_id@) =~= self.known());
            },
        }
    }

    /// Sets the interval of the login with the identifier `auth_session_id`.
    pub fn update_interval(&mut self, auth_session_id: &str, interval: i64)
        requires
            old(self).wf(),
        ensures
            final(self).wf(),
            final(self).known() == if old(self).known().contains_key(auth_session_id@) {
                old(self).known().insert(
                    auth_session_id@,
                    DeviceSessionView { interval, ..old(self).known()[auth_session_id@] },
                )
            } else {
                old(self).known()
            },
    {
        let ghost views = session_views(self.sessions@);
        if let Some(i) = self.find(auth_session_id) {
            let session = &self.sessions[i];
            let updated = GithubDeviceSession {
                device_code: session.1.device_code.clone(),
                expires_at: session.1.expires_at,
                interval,
            };
            let id = session.0.clone();
            proof {
                assoc::lemma_update(views, i as int, updated@);
            }
            self.sessions.set(i, (id, updated));
            assert(session_views(self.sessions@) =~= views.update(
                i as int,
                (views[i as int].0, updated@),
            ));
        }
    }

    /// Files a login under an identifier; one already filed there is replaced.
    fn insert(&mut self, id: String, session: GithubDeviceSession)
        requires
            old(self).wf(),
        ensures
            final(self).wf(),
            final(self).known() == old(self).known().insert(id@, session@),
    {
        let ghost views = session_views(self.sessions@);
        match self.find(id.as_str()) {
            Some(i) => {
                proof {
                    assoc::lemma_update(views, i as int, session@);
                }
                self.sessions.set(i, (id, session));
                assert(session_views(self.sessions@) =~= views.update(
                    i as int,
                    (views[i as int].0, session@),
                ));
            },
            None => {
                proof {
                    assoc::lemma_push(views, id@, session@);
                }
                self.sessions.push((id, session));
                assert(session_views(self.sessions@) =~= views.push((id@, session@)));
            },
        }
    }

    /// Files the login that GitHub has started, and says what the user is to be told.
    pub fn begin(&mut self, auth_session_id: String, start: DeviceAuthStart, now: u128) -> (r:
        StartGithubDeviceAuthResponse)
        requires
            old(self).wf(),
            deadline(now, start.expires_in) <= u128::MAX,
        ensures
            final(self).wf(),
            final(self).known() == old(self).known().insert(
                auth_session_id@,
                DeviceSessionView {
                    device_code: start.device_code@,
                    expires_at: deadline(now, start.expires_in) as u128,
                    interval: start.interval,
                },
            ),
            r.auth_session_id@ == auth_session_id@,
            r.user_code == start.user_code,
            r.verification_uri == start.verification_uri,
            r.expires_in == at_least_one(start.expires_in),
            r.interval == start.interval,
    {
        let expires_in: i64 = if start.expires_in >= 1 {
            start.expires_in
        } else {
            1
        };
        let expires_at: u128 = now + (expires_in as u128) * 1_000_000_000;
        let id = auth_session_id.clone();
        self.insert(
            id,
            GithubDeviceSession {
                device_code: start.device_code,
                expires_at,
                interval: start.interval,
            },
        );
        StartGithubDeviceAuthResponse {
            auth_session_id,
            user_code: start.user_code,
            verification_uri: start.verification_uri,
            expires_in,
            interval: start.interval,
        }
    }
}

/// A login that was filed is found under its identifier until its time is over, and not after.
pub proof fn law_login_is_found_until_its_deadline(
    sessions: Map<Seq<char>, DeviceSessionView>,
    id: Seq<char>,
    session: DeviceSessionView,
    now: u128,
)
    ensures
        now < session.expires_at ==> session_at(sessions.insert(id, session), id, now) == Ok::<
            DeviceSessionView,
            StatusView,
        >(session),
        now >= session.expires_at ==> session_at(sessions.insert(id, session), id, now) is Err,
{
}

/// Pruning drops the logins whose time is over and no others: it changes which logins are found
/// at no later time.
pub proof fn law_pruning_drops_expired_logins_only(
    sessions: Map<Seq<char>, DeviceSessionView>,
    id: Seq<char>,
    pruned_at: u128,
    now: u128,
)
    requires
        pruned_at <= now,
    ensures
        ({
            let left = assoc::kept(sessions, unexpired(pruned_at));
            &&& left.contains_key(id) <==> sessions.contains_key(id) && sessions[id].expires_at
                > pruned_at
            &&& session_at(left, id, now) is Ok <==> session_at(sessions, id, now) is Ok
            &&& session_at(sessions, id, now) is Ok ==> session_at(left, id, now) == session_at(
                sessions,
                id,
                now,
            )
        }),
{
}

} // verus!
