//! The launch service's bookkeeping: an in-memory store of launch records,
//! keyed by user and launch id, with sequential id assignment. Persisting the
//! store to disk belongs to the service around the library.

use crate::mining::{LaunchCreateResponse, LaunchResultInfo, LaunchStatus, LaunchStatusRequest,
    LaunchStatusResponse};
use vstd::arithmetic::div_mod::lemma_div_decreases;
use vstd::prelude::*;
use vstd::string::StringExecFns;

verus! {

/// The digit character for one decimal digit.
pub open spec fn digit_char(d: int) -> char {
    if d == 0 {
        '0'
    } else if d == 1 {
        '1'
    } else if d == 2 {
        '2'
    } else if d == 3 {
        '3'
    } else if d == 4 {
        '4'
    } else if d == 5 {
        '5'
    } else if d == 6 {
        '6'
    } else if d == 7 {
        '7'
    } else if d == 8 {
        '8'
    } else {
        '9'
    }
}

/// The decimal digits of a number, most significant first.
pub open spec fn spec_decimal(n: int) -> Seq<char>
    decreases n,
{
    if n < 10 {
        seq![digit_char(n)]
    } else {
        spec_decimal(n / 10) + seq![digit_char(n % 10)]
    }
}

/// The text of one decimal digit.
fn digit_str(d: u64) -> (r: &'static str)
    requires
        d < 10,
    ensures
        r@ == seq![digit_char(d as int)],
{
    if d == 0 {
        proof {
            reveal_strlit("0");
        }
        "0"
    } else if d == 1 {
        proof {
            reveal_strlit("1");
        }
        "1"
    } else if d == 2 {
        proof {
            reveal_strlit("2");
        }
        "2"
    } else if d == 3 {
        proof {
            reveal_strlit("3");
        }
        "3"
    } else if d == 4 {
        proof {
            reveal_strlit("4");
        }
        "4"
    } else if d == 5 {
        proof {
            reveal_strlit("5");
        }
        "5"
    } else if d == 6 {
        proof {
            reveal_strlit("6");
        }
        "6"
    } else if d == 7 {
        proof {
            reveal_strlit("7");
        }
        "7"
    } else if d == 8 {
        proof {
            reveal_strlit("8");
        }
        "8"
    } else {
        proof {
            reveal_strlit("9");
        }
        "9"
    }
}

/// Renders a number in decimal.
pub fn u64_to_decimal(n: u64) -> (r: String)
    ensures
        r@ == spec_decimal(n as int),
    decreases n,
{
    if n < 10 {
        digit_str(n).to_owned()
    } else {
        proof {
            lemma_div_decreases(n as int, 10);
        }
        let mut s = u64_to_decimal(n / 10);
        s.append(digit_str(n % 10));
        s
    }
}

/// One launch the service tracks: its id, owner, lifecycle status, the raw
/// configuration it was created with, and its outcome once finished.
#[derive(Debug, Clone, PartialEq, Eq)]
pub struct LaunchRecord {
    pub launch_id: String,
    pub user_id: String,
    pub status: LaunchStatus,
    pub config: String,
    pub result: Option<LaunchResultInfo>,
}

/// The failure a store query reports.
#[derive(Debug, Clone, PartialEq, Eq)]
pub enum StoreError {
    /// No record matches the user and launch id.
    LaunchNotFound { user_id: String, launch_id: String },
}

/// Whether two optional outcome records carry the same content.
pub open spec fn result_info_eq(a: Option<LaunchResultInfo>, b: Option<LaunchResultInfo>) -> bool {
    match (a, b) {
        (None, None) => true,
        (Some(x), Some(y)) => x.success == y.success && (match (x.message, y.message) {
            (None, None) => true,
            (Some(m1), Some(m2)) => m1@ == m2@,
            _ => false,
        }),
        _ => false,
    }
}

/// Copies an optional outcome record, content for content.
fn clone_result(r: &Option<LaunchResultInfo>) -> (c: Option<LaunchResultInfo>)
    ensures
        result_info_eq(*r, c),
{
    match r {
        None => None,
        Some(info) => Some(
            LaunchResultInfo {
                success: info.success,
                message: (match &info.message {
                    None => None,
                    Some(m) => Some(m.clone()),
                }),
            },
        ),
    }
}

/// Whether a record belongs to the user and launch id.
pub open spec fn record_matches(rec: LaunchRecord, user_id: Seq<char>, launch_id: Seq<char>) -> bool {
    rec.user_id@ == user_id && rec.launch_id@ == launch_id
}

/// The id text a launch gets: `launch-` and its number.
pub open spec fn launch_id_text(n: int) -> Seq<char> {
    "launch-"@ + spec_decimal(n)
}

/// The launch records, with the next id to assign.
#[derive(Debug, Clone, PartialEq, Eq)]
pub struct LaunchStore {
    pub next_id: u64,
    pub records: Vec<LaunchRecord>,
}

impl LaunchStore {
    /// An empty store; ids start at one.
    pub fn new() -> (r: LaunchStore)
        ensures
            r.next_id == 1,
            r.records@.len() == 0,
    {
        LaunchStore { next_id: 1, records: Vec::new() }
    }

    /// Records a new pending launch under the next id.
    pub fn create_launch(&mut self, user_id: String, config: String) -> (r: LaunchCreateResponse)
        requires
            old(self).next_id < u64::MAX,
        ensures
            r.launch_id@ == launch_id_text(old(self).next_id as int),
            r.status == LaunchStatus::Pending,
            final(self).next_id == old(self).next_id + 1,
            final(self).records@.len() == old(self).records@.len() + 1,
            final(self).records@.drop_last() == old(self).records@,
            record_matches(final(self).records@.last(), user_id@, r.launch_id@),
            final(self).records@.last().status == LaunchStatus::Pending,
            final(self).records@.last().config == config,
            final(self).records@.last().result is None,
    {
        let launch_id = "launch-".to_owned().concat(u64_to_decimal(self.next_id).as_str());
        self.next_id = self.next_id + 1;
        let record = LaunchRecord {
            launch_id: launch_id.clone(),
            user_id,
            status: LaunchStatus::Pending,
            config,
            result: None,
        };
        self.records.push(record);
        proof {
            assert(final(self).records@.drop_last() =~= old(self).records@);
        }
        LaunchCreateResponse { launch_id, status: LaunchStatus::Pending }
    }

    /// Reports the status of the first record matching the request, or that
    /// none does.
    pub fn get_launch_status(&self, request: &LaunchStatusRequest) -> (r: Result<
        LaunchStatusResponse,
        StoreError,
    >)
        ensures
            (match r {
                Ok(resp) => exists|i: int|
                    0 <= i < self.records@.len() && record_matches(
                        #[trigger] self.records@[i],
                        request.user_id@,
                        request.launch_id@,
                    ) && (forall|j: int|
                        0 <= j < i ==> !record_matches(
                            self.records@[j],
                            request.user_id@,
                            request.launch_id@,
                        )) && resp.launch_id@ == self.records@[i].launch_id@ && resp.status
                        == self.records@[i].status && result_info_eq(
                        resp.result,
                        self.records@[i].result,
                    ),
                Err(e) => (forall|j: int|
                    0 <= j < self.records@.len() ==> !record_matches(
                        #[trigger] self.records@[j],
                        request.user_id@,
                        request.launch_id@,
                    )) && (e matches StoreError::LaunchNotFound { user_id, launch_id } && user_id@
                    == request.user_id@ && launch_id@ == request.launch_id@),
            }),
    {
        let n = self.records.len();
        let mut i: usize = 0;
        while i < n
            invariant
                n == self.records@.len(),
                i <= n,
                forall|j: int|
                    0 <= j < i ==> !record_matches(
                        #[trigger] self.records@[j],
                        request.user_id@,
                        request.launch_id@,
                    ),
            decreases n - i,
        {
            let rec = &self.records[i];
            if rec.user_id == request.user_id && rec.launch_id == request.launch_id {
                return Ok(
                    LaunchStatusResponse {
                        launch_id: rec.launch_id.clone(),
                        status: rec.status,
                        result: clone_result(&rec.result),
                    },
                );
            }
            i += 1;
        }
        Err(
            StoreError::LaunchNotFound {
                user_id: request.user_id.clone(),
                launch_id: request.launch_id.clone(),
            },
        )
    }

    /// Sets the status and outcome of the first record matching the user and
    /// launch id, or reports that none does.
    pub fn update_launch_result(
        &mut self,
        user_id: String,
        launch_id: String,
        status: LaunchStatus,
        result: Option<LaunchResultInfo>,
    ) -> (r: Result<LaunchStatusResponse, StoreError>)
        ensures
            (match r {
                Ok(resp) => exists|i: int|
                    0 <= i < old(self).records@.len() && record_matches(
                        #[trigger] old(self).records@[i],
                        user_id@,
                        launch_id@,
                    ) && (forall|j: int|
                        0 <= j < i ==> !record_matches(old(self).records@[j], user_id@, launch_id@))
                        && final(self).records@ == old(self).records@.update(
                        i,
                        LaunchRecord {
                            launch_id: old(self).records@[i].launch_id,
                            user_id: old(self).records@[i].user_id,
                            status,
                            config: old(self).records@[i].config,
                            result,
                        },
                    ) && resp.launch_id@ == old(self).records@[i].launch_id@ && resp.status
                        == status && result_info_eq(resp.result, result),
                Err(e) => *final(self) == *old(self) && (forall|j: int|
                    0 <= j < old(self).records@.len() ==> !record_matches(
                        #[trigger] old(self).records@[j],
                        user_id@,
                        launch_id@,
                    )) && (e matches StoreError::LaunchNotFound { user_id: u, launch_id: l } && u@
                    == user_id@ && l@ == launch_id@),
            }),
            final(self).next_id == old(self).next_id,
    {
        let n = self.records.len();
        let mut i: usize = 0;
        while i < n
            invariant
                n == self.records@.len(),
                i <= n,
                self == old(self),
                forall|j: int|
                    0 <= j < i ==> !record_matches(
                        #[trigger] self.records@[j],
                        user_id@,
                        launch_id@,
                    ),
            decreases n - i,
        {
            let found = {
                let rec = &self.records[i];
                rec.user_id == user_id && rec.launch_id == launch_id
            };
            if found {
                let resp_result = clone_result(&result);
                let rec = vstd::std_specs::vec::vec_index_mut(&mut self.records, i);
                rec.status = status;
                rec.result = result;
                let resp = LaunchStatusResponse {
                    launch_id: rec.launch_id.clone(),
                    status: rec.status,
                    result: resp_result,
                };
                return Ok(resp);
            }
            i += 1;
        }
        Err(StoreError::LaunchNotFound { user_id, launch_id })
    }
}

} // verus!
