//! Decisions of the OSS service around its storage calls: which keys a
//! batch delete removes and how a partial failure is reported, the key of a
//! new folder, which secret an account keeps, and how a failed save of an
//! account is rolled back.
use vstd::prelude::*;

use crate::error::{AppError, AppResult, TaskOutcome};
use crate::text::{chars_of, decimal, decimal_string, extend_str, string_from};

verus! {

/// The most objects one delete request may name.
pub const MAX_DELETE_OBJECTS: usize = 100;

/// A batch delete names between one and a hundred objects.
pub fn check_delete_count(count: usize) -> (r: AppResult<()>)
    ensures
        r is Ok <==> 1 <= count <= MAX_DELETE_OBJECTS,
        r matches Err(e) ==> e.code@ == "VALIDATION_ERROR"@ && e.message@
            == "objectKeys must contain between 1 and 100 objects"@ && e.detail_map() == map![
            "field"@ => "objectKeys"@,
        ],
{
    if count == 0 || count > MAX_DELETE_OBJECTS {
        return Err(
            AppError::validation("objectKeys must contain between 1 and 100 objects").with_detail(
                "field",
                "objectKeys",
            ),
        );
    }
    Ok(())
}

/// The keys in order, each kept at its first occurrence.
pub open spec fn first_occurrences(keys: Seq<Seq<char>>) -> Seq<Seq<char>>
    decreases keys.len(),
{
    if keys.len() == 0 {
        Seq::empty()
    } else {
        let kept = first_occurrences(keys.drop_last());
        if kept.contains(keys.last()) {
            kept
        } else {
            kept.push(keys.last())
        }
    }
}

/// The keys kept are those of the batch, each once.
pub proof fn law_first_occurrences_distinct(keys: Seq<Seq<char>>)
    ensures
        forall|i: int, j: int|
            0 <= i < j < first_occurrences(keys).len() ==> first_occurrences(keys)[i]
                != first_occurrences(keys)[j],
        forall|k: Seq<char>| first_occurrences(keys).contains(k) <==> keys.contains(k),
    decreases keys.len(),
{
    if keys.len() > 0 {
        let rest = keys.drop_last();
        law_first_occurrences_distinct(rest);
        let kept = first_occurrences(rest);
        assert forall|k: Seq<char>| first_occurrences(keys).contains(k) <==> keys.contains(k) by {
            if keys.contains(k) {
                let i = choose|i: int| 0 <= i < keys.len() && keys[i] == k;
                let f = first_occurrences(keys);
                if i < keys.len() - 1 {
                    assert(rest[i] == k);
                    assert(rest.contains(k));
                    assert(kept.contains(k));
                    let j = choose|j: int| 0 <= j < kept.len() && kept[j] == k;
                    assert(f[j] == k);
                } else if kept.contains(k) {
                    let j = choose|j: int| 0 <= j < kept.len() && kept[j] == k;
                    assert(f[j] == k);
                } else {
                    assert(f[f.len() - 1] == k);
                }
            }
            if first_occurrences(keys).contains(k) {
                let f = first_occurrences(keys);
                let j = choose|j: int| 0 <= j < f.len() && f[j] == k;
                if j < kept.len() {
                    assert(kept[j] == k);
                    assert(kept.contains(k));
                    assert(rest.contains(k));
                    let i = choose|i: int| 0 <= i < rest.len() && rest[i] == k;
                    assert(keys[i] == k);
                } else {
                    assert(keys[keys.len() - 1] == k);
                }
            }
        }
    }
}

pub open spec fn key_views(keys: Seq<String>) -> Seq<Seq<char>> {
    keys.map_values(|k: String| k@)
}

/// The keys of a batch delete without repeats, in the order they first
/// occur.
pub fn distinct_keys(keys: &Vec<String>) -> (r: Vec<String>)
    ensures
        key_views(r@) == first_occurrences(key_views(keys@)),
{
    let mut out: Vec<String> = Vec::new();
    let mut i: usize = 0;
    while i < keys.len()
        invariant
            i <= keys@.len(),
            key_views(out@) == first_occurrences(key_views(keys@.take(i as int))),
        decreases keys@.len() - i,
    {
        let ghost prev = key_views(out@);
        let mut found = false;
        let mut j: usize = 0;
        while j < out.len()
            invariant
                j <= out@.len(),
                prev == key_views(out@),
                found == exists|k: int| 0 <= k < j && out@[k]@ == keys@[i as int]@,
                i < keys@.len(),
            decreases out@.len() - j,
        {
            if out[j].eq(&keys[i]) {
                found = true;
            }
            j = j + 1;
        }
        proof {
            let kv = key_views(keys@.take(i + 1));
            assert(kv.drop_last() =~= key_views(keys@.take(i as int)));
            assert(kv.last() == keys@[i as int]@);
            if found {
                let k = choose|k: int| 0 <= k < out@.len() && out@[k]@ == keys@[i as int]@;
                assert(prev[k] == keys@[i as int]@);
            } else {
                assert forall|k: int| 0 <= k < prev.len() implies prev[k] != keys@[i as int]@ by {
                    assert(prev[k] == out@[k]@);
                }
            }
        }
        if !found {
            out.push(keys[i].clone());
            assert(key_views(out@) =~= prev.push(keys@[i as int]@));
        }
        i = i + 1;
    }
    assert(keys@.take(keys@.len() as int) =~= keys@);
    out
}

/// The error of a batch delete that stopped at `failed_key`: the storage
/// error with how many objects were already deleted and the key that failed.
pub fn delete_failure_error(error: AppError, deleted_count: u64, failed_key: &str) -> (e: AppError)
    ensures
        e.code == error.code,
        e.message == error.message,
        e.retryable == error.retryable,
        e.detail_map() == error.detail_map().insert("deletedCount"@, decimal(deleted_count as nat)).insert(
            "failedObjectKey"@,
            failed_key@,
        ),
{
    let count = decimal_string(deleted_count);
    error.with_detail("deletedCount", count.as_str()).with_detail("failedObjectKey", failed_key)
}

/// The key of a folder: its parent prefix, its name and a closing `/`.
pub fn folder_object_key(parent_prefix: &str, folder_name: &str) -> (r: String)
    ensures
        r@ == parent_prefix@ + folder_name@ + "/"@,
{
    let mut v = chars_of(parent_prefix);
    extend_str(&mut v, folder_name);
    extend_str(&mut v, "/");
    string_from(v.as_slice())
}

/// The error of creating a folder whose object the storage refused: a
/// conflict means the folder already exists; any other error is kept.
pub fn folder_creation_error(error: AppError, target_id: &str, object_key: &str) -> (e: AppError)
    ensures
        error.code@ == "OSS_UPLOAD_CONFLICT"@ ==> e.code@ == "OSS_FOLDER_ALREADY_EXISTS"@ && e.message@
            == "OSS folder already exists"@ && e.detail_map() == map![
            "targetId"@ => target_id@,
            "objectKey"@ => object_key@,
        ] && e.retryable is None,
        error.code@ != "OSS_UPLOAD_CONFLICT"@ ==> e == error,
{
    let conflict = crate::text::chars_eq_str(chars_of(error.code.as_str()).as_slice(), "OSS_UPLOAD_CONFLICT");
    if conflict {
        AppError::new("OSS_FOLDER_ALREADY_EXISTS", "OSS folder already exists").with_detail(
            "targetId",
            target_id,
        ).with_detail("objectKey", object_key)
    } else {
        error
    }
}

/// A copy must go to a different key.
pub fn check_distinct_copy_keys(source_key: &str, target_key: &str) -> (r: AppResult<()>)
    ensures
        r is Ok <==> source_key@ != target_key@,
        r matches Err(e) ==> e.code@ == "VALIDATION_ERROR"@ && e.message@
            == "sourceKey and targetKey must be different"@ && e.detail_map() == Map::<
            Seq<char>,
            Seq<char>,
        >::empty(),
{
    if crate::text::chars_eq_str(chars_of(source_key).as_slice(), target_key) {
        return Err(AppError::validation("sourceKey and targetKey must be different"));
    }
    Ok(())
}

/// A disabled account may not be used.
pub fn ensure_account_enabled(is_disabled: bool, account_id: &str) -> (r: AppResult<()>)
    ensures
        r is Ok <==> !is_disabled,
        r matches Err(e) ==> e.code@ == "OSS_ACCOUNT_DISABLED"@ && e.message@
            == "OSS account is disabled"@ && e.detail_map() == map!["accountId"@ => account_id@],
{
    if is_disabled {
        return Err(AppError::new("OSS_ACCOUNT_DISABLED", "OSS account is disabled").with_detail("accountId", account_id));
    }
    Ok(())
}

/// The secret an account keeps: the one given, or when none is given the
/// saved one; with neither, a validation error on `accessKeySecret`.
pub fn resolve_access_key_secret(given: String, saved: Option<String>) -> (r: AppResult<String>)
    ensures
        given@.len() > 0 ==> r == Ok::<String, AppError>(given),
        given@.len() == 0 && saved is Some ==> r == Ok::<String, AppError>(saved->Some_0),
        given@.len() == 0 && saved is None ==> (r matches Err(e) && e.code@ == "VALIDATION_ERROR"@
            && e.message@ == "accessKeySecret is required when no saved OSS credential exists"@
            && e.detail_map() == map!["field"@ => "accessKeySecret"@]),
{
    if chars_of(given.as_str()).len() > 0 {
        return Ok(given);
    }
    match saved {
        Some(s) => Ok(s),
        None => Err(
            AppError::validation("accessKeySecret is required when no saved OSS credential exists").with_detail(
                "field",
                "accessKeySecret",
            ),
        ),
    }
}

/// How the stored credential is put back after saving an account failed:
/// the previous credential is written back, or the new one removed when
/// the account had none.
#[derive(Debug, Clone, Copy, PartialEq, Eq, Structural)]
pub enum CredentialRollback {
    RestorePrevious,
    RemoveNew,
}

pub fn credential_rollback(had_previous: bool) -> (r: CredentialRollback)
    ensures
        r == if had_previous {
            CredentialRollback::RestorePrevious
        } else {
            CredentialRollback::RemoveNew
        },
{
    if had_previous {
        CredentialRollback::RestorePrevious
    } else {
        CredentialRollback::RemoveNew
    }
}

/// The error of a failed account save or delete, once the credential
/// rollback has run: when the rollback failed too, the error says the
/// secure credential state needs repair.
pub fn attach_credential_rollback(error: AppError, rollback_ok: bool) -> (e: AppError)
    ensures
        rollback_ok ==> e == error,
        !rollback_ok ==> e.code == error.code && e.message == error.message && e.retryable
            == error.retryable && e.detail_map() == error.detail_map().insert(
            "credentialRollback"@,
            "failed; secure credential state requires repair"@,
        ),
{
    if rollback_ok {
        error
    } else {
        error.with_detail("credentialRollback", "failed; secure credential state requires repair")
    }
}

/// The result of a credential store operation named `operation`: its own
/// result when it finished; otherwise `OSS_CREDENTIAL_STORE_UNAVAILABLE`
/// with the reason, or the retryable `OSS_CREDENTIAL_STORE_TIMEOUT`.
pub fn credential_operation_result<T>(operation: &str, outcome: TaskOutcome<T>) -> (r:
    AppResult<T>)
    ensures
        match outcome {
            TaskOutcome::Finished(result) => r == result,
            TaskOutcome::Aborted(reason) => r matches Err(e) && e.code@
                == "OSS_CREDENTIAL_STORE_UNAVAILABLE"@ && e.message@
                == "secure OSS credential operation failed"@ && e.retryable is None && e.detail_map()
                == map!["operation"@ => operation@, "reason"@ => reason@],
            TaskOutcome::TimedOut => r matches Err(e) && e.code@
                == "OSS_CREDENTIAL_STORE_TIMEOUT"@ && e.message@
                == "secure OSS credential operation timed out"@ && e.retryable == Some(true)
                && e.detail_map() == map!["operation"@ => operation@],
        },
{
    proof {
        crate::error::lemma_detail_keys_distinct();
        reveal_strlit("operation");
        reveal_strlit("reason");
        assert("operation"@.len() != "reason"@.len());
    }
    match outcome {
        TaskOutcome::Finished(result) => result,
        TaskOutcome::Aborted(reason) => Err(
            AppError::new("OSS_CREDENTIAL_STORE_UNAVAILABLE", "secure OSS credential operation failed").with_detail(
                "operation",
                operation,
            ).with_detail("reason", reason.as_str()),
        ),
        TaskOutcome::TimedOut => Err(
            AppError::new("OSS_CREDENTIAL_STORE_TIMEOUT", "secure OSS credential operation timed out").with_detail(
                "operation",
                operation,
            ).retryable(true),
        ),
    }
}

/// What probing a target found.
#[derive(Debug)]
pub struct OssProbeResult {
    pub target_id: String,
    pub bucket: String,
    pub reachable: bool,
    pub can_list_objects: bool,
    pub message: String,
    pub checked_at: String,
}

/// The result of probing a target by listing one object: reachable when
/// the listing succeeded; otherwise the listing's error with the target id.
pub fn probe_result(target_id: String, bucket: String, checked_at: String, listing: Result<(), AppError>) -> (r:
    AppResult<OssProbeResult>)
    ensures
        match listing {
            Ok(()) => r matches Ok(p) && p.target_id == target_id && p.bucket == bucket && p.reachable
                && p.can_list_objects && p.message@ == "OSS target is reachable"@ && p.checked_at
                == checked_at,
            Err(error) => r matches Err(e) && e.code == error.code && e.message == error.message
                && e.retryable == error.retryable && e.detail_map() == error.detail_map().insert(
                "targetId"@,
                target_id@,
            ),
        },
{
    match listing {
        Ok(()) => Ok(
            OssProbeResult {
                target_id,
                bucket,
                reachable: true,
                can_list_objects: true,
                message: "OSS target is reachable".to_owned(),
                checked_at,
            },
        ),
        Err(error) => Err(error.with_detail("targetId", target_id.as_str())),
    }
}

} // verus!
