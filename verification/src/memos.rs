//! Memos attached to customers, users and matchings: the rows, the
//! requests, and the one consistency rule the handlers enforce — a memo
//! request must name the same entity as the path it is posted under.

use vstd::prelude::*;

verus! {

/// A memo on a customer.  Timestamps are seconds since the Unix epoch.
#[derive(Clone, Debug)]
pub struct CustomerMemo {
    pub id: i64,
    pub customer_id: i64,
    pub memo_content: String,
    pub created_by: Option<i64>,
    pub created_at: i64,
    pub updated_at: i64,
    pub deleted_at: Option<i64>,
}

/// A memo on a user.
#[derive(Clone, Debug)]
pub struct UserMemo {
    pub id: i64,
    pub user_id: i64,
    pub memo_content: String,
    pub created_at: i64,
    pub updated_at: i64,
    pub deleted_at: Option<i64>,
}

/// A memo on a matching.
#[derive(Clone, Debug)]
pub struct MatchingMemo {
    pub id: i64,
    pub matching_id: i64,
    pub memo_content: String,
    pub created_by: Option<i64>,
    pub created_at: i64,
    pub updated_at: i64,
    pub deleted_at: Option<i64>,
}

/// A request to create a customer memo.
#[derive(Clone, Debug)]
pub struct CreateCustomerMemoRequest {
    pub customer_id: i64,
    pub memo_content: String,
}

/// A request to create a user memo.
#[derive(Clone, Debug)]
pub struct CreateUserMemoRequest {
    pub memo_content: String,
}

/// A request to create a matching memo.
#[derive(Clone, Debug)]
pub struct CreateMatchingMemoRequest {
    pub matching_id: i64,
    pub memo_content: String,
}

/// A request to replace a memo's content.
#[derive(Clone, Debug)]
pub struct UpdateMemoRequest {
    pub memo_content: String,
}

/// A memo list query.
#[derive(Clone, Debug)]
pub struct ListMemosQuery {
    pub limit: Option<i64>,
    pub offset: Option<i64>,
}

/// Build a customer memo.  Refused exactly when the request names a
/// customer other than the one the path names.
pub fn create_customer_memo(
    path_customer_id: i64,
    req: &CreateCustomerMemoRequest,
    created_by: i64,
    id: i64,
    now: i64,
) -> (r: Option<CustomerMemo>)
    ensures
        req.customer_id != path_customer_id ==> r is None,
        req.customer_id == path_customer_id ==> (r matches Some(m) && m == (CustomerMemo {
            id,
            customer_id: req.customer_id,
            memo_content: req.memo_content,
            created_by: Some(created_by),
            created_at: now,
            updated_at: now,
            deleted_at: None,
        })),
{
    if req.customer_id != path_customer_id {
        return None;
    }
    Some(
        CustomerMemo {
            id,
            customer_id: req.customer_id,
            memo_content: req.memo_content.clone(),
            created_by: Some(created_by),
            created_at: now,
            updated_at: now,
            deleted_at: None,
        },
    )
}

/// Build a user memo for the authenticated user.
pub fn create_user_memo(user_id: i64, req: &CreateUserMemoRequest, id: i64, now: i64) -> (r:
    UserMemo)
    ensures
        r == (UserMemo {
            id,
            user_id,
            memo_content: req.memo_content,
            created_at: now,
            updated_at: now,
            deleted_at: None,
        }),
{
    UserMemo {
        id,
        user_id,
        memo_content: req.memo_content.clone(),
        created_at: now,
        updated_at: now,
        deleted_at: None,
    }
}

/// Build a matching memo.  Refused exactly when the request names a
/// matching other than the one the path names.
pub fn create_matching_memo(
    path_matching_id: i64,
    req: &CreateMatchingMemoRequest,
    created_by: i64,
    id: i64,
    now: i64,
) -> (r: Option<MatchingMemo>)
    ensures
        req.matching_id != path_matching_id ==> r is None,
        req.matching_id == path_matching_id ==> (r matches Some(m) && m == (MatchingMemo {
            id,
            matching_id: req.matching_id,
            memo_content: req.memo_content,
            created_by: Some(created_by),
            created_at: now,
            updated_at: now,
            deleted_at: None,
        })),
{
    if req.matching_id != path_matching_id {
        return None;
    }
    Some(
        MatchingMemo {
            id,
            matching_id: req.matching_id,
            memo_content: req.memo_content.clone(),
            created_by: Some(created_by),
            created_at: now,
            updated_at: now,
            deleted_at: None,
        },
    )
}

impl CustomerMemo {
    /// Replace the memo's content.
    pub fn apply_update(&self, req: &UpdateMemoRequest, now: i64) -> (r: CustomerMemo)
        ensures
            r == (CustomerMemo { memo_content: req.memo_content, updated_at: now, ..*self }),
    {
        CustomerMemo {
            id: self.id,
            customer_id: self.customer_id,
            memo_content: req.memo_content.clone(),
            created_by: self.created_by,
            created_at: self.created_at,
            updated_at: now,
            deleted_at: self.deleted_at,
        }
    }

    /// Soft-delete the memo.
    pub fn soft_delete(&self, now: i64) -> (r: CustomerMemo)
        ensures
            r == (CustomerMemo { deleted_at: Some(now), ..*self }),
    {
        CustomerMemo {
            id: self.id,
            customer_id: self.customer_id,
            memo_content: self.memo_content.clone(),
            created_by: self.created_by,
            created_at: self.created_at,
            updated_at: self.updated_at,
            deleted_at: Some(now),
        }
    }
}

impl UserMemo {
    /// Replace the memo's content.
    pub fn apply_update(&self, req: &UpdateMemoRequest, now: i64) -> (r: UserMemo)
        ensures
            r == (UserMemo { memo_content: req.memo_content, updated_at: now, ..*self }),
    {
        UserMemo {
            id: self.id,
            user_id: self.user_id,
            memo_content: req.memo_content.clone(),
            created_at: self.created_at,
            updated_at: now,
            deleted_at: self.deleted_at,
        }
    }

    /// Soft-delete the memo.
    pub fn soft_delete(&self, now: i64) -> (r: UserMemo)
        ensures
            r == (UserMemo { deleted_at: Some(now), ..*self }),
    {
        UserMemo {
            id: self.id,
            user_id: self.user_id,
            memo_content: self.memo_content.clone(),
            created_at: self.created_at,
            updated_at: self.updated_at,
            deleted_at: Some(now),
        }
    }
}

impl MatchingMemo {
    /// Replace the memo's content.
    pub fn apply_update(&self, req: &UpdateMemoRequest, now: i64) -> (r: MatchingMemo)
        ensures
            r == (MatchingMemo { memo_content: req.memo_content, updated_at: now, ..*self }),
    {
        MatchingMemo {
            id: self.id,
            matching_id: self.matching_id,
            memo_content: req.memo_content.clone(),
            created_by: self.created_by,
            created_at: self.created_at,
            updated_at: now,
            deleted_at: self.deleted_at,
        }
    }

    /// Soft-delete the memo.
    pub fn soft_delete(&self, now: i64) -> (r: MatchingMemo)
        ensures
            r == (MatchingMemo { deleted_at: Some(now), ..*self }),
    {
        MatchingMemo {
            id: self.id,
            matching_id: self.matching_id,
            memo_content: self.memo_content.clone(),
            created_by: self.created_by,
            created_at: self.created_at,
            updated_at: self.updated_at,
            deleted_at: Some(now),
        }
    }
}

} // verus!
