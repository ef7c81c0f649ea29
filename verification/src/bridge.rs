//! The bridge to the operations: which request an operation makes, what is done about the status
//! of the reply, and what is answered.

use vstd::prelude::*;
use vstd::string::*;

use crate::json::{Json, JsonView, Members};
use crate::ops::{
    bigquery, compute, documents, functions, iam, logging, monitoring, run, secrets, storage, topics,
};
use crate::options::{Env, EnvView};
use crate::request::{outcome, prepared, Error, Request, RequestView};
use crate::{gs_uri, naming, resource_name, table_ref};

verus! {

/// An operation on a service.
#[derive(Clone, Copy, Debug, PartialEq, Eq, Structural)]
pub enum Op {
    GcsListBuckets,
    GcsListObjects,
    GcsGetObject,
    GcsPutObject,
    GcsDeleteObject,
    GcsHeadObject,
    GcsCopyObject,
    GcsCompose,
    GcsGetIamPolicy,
    GcsSetIamPolicy,
    PubsubPublish,
    PubsubPull,
    PubsubAck,
    PubsubListTopics,
    PubsubListSubscriptions,
    PubsubCreateTopic,
    PubsubCreateSubscription,
    PubsubGetTopic,
    PubsubTopicSubscriptions,
    PubsubDeleteTopic,
    PubsubDeleteSubscription,
    SecretAccess,
    SecretCreate,
    SecretAddVersion,
    SecretListVersions,
    SecretDelete,
    SecretList,
    BigqueryQuery,
    BigqueryInsert,
    BigqueryListDatasets,
    BigqueryGetDataset,
    BigqueryListTables,
    BigqueryGetTable,
    BigqueryListJobs,
    FirestoreGet,
    FirestoreSet,
    FirestoreDelete,
    FirestoreList,
    FirestoreQuery,
    FirestoreCreate,
    ComputeListInstances,
    ComputeGetInstance,
    ComputeStartInstance,
    ComputeStopInstance,
    ComputeResetInstance,
    ComputeListZones,
    ComputeListRegions,
    ComputeListMachineTypes,
    ComputeListDisks,
    RunListServices,
    RunGetService,
    RunListRevisions,
    FunctionsList,
    FunctionsDescribe,
    LoggingListEntries,
    LoggingWriteEntry,
    LoggingListLogs,
    MonitoringListTimeSeries,
    MonitoringListMetricDescriptors,
    IamGetPolicy,
    IamTestPermissions,
    IamListServiceAccounts,
    IamGetServiceAccount,
}

/// The request of an operation, or what is answered where it cannot be made.
pub open spec fn call_of(op: Op, opts: JsonView, env: EnvView) -> Result<RequestView, Seq<char>> {
    match op {
        Op::GcsListBuckets => storage::gcs_list_buckets_call(opts, env),
        Op::GcsListObjects => storage::gcs_list_objects_call(opts, env),
        Op::GcsGetObject => storage::gcs_get_object_call(opts, env),
        Op::GcsPutObject => storage::gcs_put_object_call(opts, env),
        Op::GcsDeleteObject => storage::gcs_delete_object_call(opts, env),
        Op::GcsHeadObject => storage::gcs_head_object_call(opts, env),
        Op::GcsCopyObject => storage::gcs_copy_object_call(opts, env),
        Op::GcsCompose => storage::gcs_compose_call(opts, env),
        Op::GcsGetIamPolicy => storage::gcs_get_iam_policy_call(opts, env),
        Op::GcsSetIamPolicy => storage::gcs_set_iam_policy_call(opts, env),
        Op::PubsubPublish => topics::pubsub_publish_call(opts, env),
        Op::PubsubPull => topics::pubsub_pull_call(opts, env),
        Op::PubsubAck => topics::pubsub_ack_call(opts, env),
        Op::PubsubListTopics => topics::pubsub_list_topics_call(opts, env),
        Op::PubsubListSubscriptions => topics::pubsub_list_subscriptions_call(opts, env),
        Op::PubsubCreateTopic => topics::pubsub_create_topic_call(opts, env),
        Op::PubsubCreateSubscription => topics::pubsub_create_subscription_call(opts, env),
        Op::PubsubGetTopic => topics::pubsub_get_topic_call(opts, env),
        Op::PubsubTopicSubscriptions => topics::pubsub_topic_subscriptions_call(opts, env),
        Op::PubsubDeleteTopic => topics::pubsub_delete_topic_call(opts, env),
        Op::PubsubDeleteSubscription => topics::pubsub_delete_subscription_call(opts, env),
        Op::SecretAccess => secrets::secret_access_call(opts, env),
        Op::SecretCreate => secrets::secret_create_call(opts, env),
        Op::SecretAddVersion => secrets::secret_add_version_call(opts, env),
        Op::SecretListVersions => secrets::secret_list_versions_call(opts, env),
        Op::SecretDelete => secrets::secret_delete_call(opts, env),
        Op::SecretList => secrets::secret_list_call(opts, env),
        Op::BigqueryQuery => bigquery::bigquery_query_call(opts, env),
        Op::BigqueryInsert => bigquery::bigquery_insert_call(opts, env),
        Op::BigqueryListDatasets => bigquery::bigquery_list_datasets_call(opts, env),
        Op::BigqueryGetDataset => bigquery::bigquery_get_dataset_call(opts, env),
        Op::BigqueryListTables => bigquery::bigquery_list_tables_call(opts, env),
        Op::BigqueryGetTable => bigquery::bigquery_get_table_call(opts, env),
        Op::BigqueryListJobs => bigquery::bigquery_list_jobs_call(opts, env),
        Op::FirestoreGet => documents::firestore_get_call(opts, env),
        Op::FirestoreSet => documents::firestore_set_call(opts, env),
        Op::FirestoreDelete => documents::firestore_delete_call(opts, env),
        Op::FirestoreList => documents::firestore_list_call(opts, env),
        Op::FirestoreQuery => documents::firestore_query_call(opts, env),
        Op::FirestoreCreate => documents::firestore_create_call(opts, env),
        Op::ComputeListInstances => compute::compute_list_instances_call(opts, env),
        Op::ComputeGetInstance => compute::compute_get_instance_call(opts, env),
        Op::ComputeStartInstance => compute::compute_instance_action_call(opts, env, "start"@),
        Op::ComputeStopInstance => compute::compute_instance_action_call(opts, env, "stop"@),
        Op::ComputeResetInstance => compute::compute_instance_action_call(opts, env, "reset"@),
        Op::ComputeListZones => compute::compute_list_zones_call(opts, env),
        Op::ComputeListRegions => compute::compute_list_regions_call(opts, env),
        Op::ComputeListMachineTypes => compute::compute_list_machine_types_call(opts, env),
        Op::ComputeListDisks => compute::compute_list_disks_call(opts, env),
        Op::RunListServices => run::run_list_services_call(opts, env),
        Op::RunGetService => run::run_get_service_call(opts, env),
        Op::RunListRevisions => run::run_list_revisions_call(opts, env),
        Op::FunctionsList => functions::functions_list_call(opts, env),
        Op::FunctionsDescribe => functions::functions_describe_call(opts, env),
        Op::LoggingListEntries => logging::logging_list_entries_call(opts, env),
        Op::LoggingWriteEntry => logging::logging_write_entry_call(opts, env),
        Op::LoggingListLogs => logging::logging_list_logs_call(opts, env),
        Op::MonitoringListTimeSeries => monitoring::monitoring_list_time_series_call(opts, env),
        Op::MonitoringListMetricDescriptors => monitoring::monitoring_list_metric_descriptors_call(
            opts,
            env,
        ),
        Op::IamGetPolicy => iam::iam_get_policy_call(opts, env),
        Op::IamTestPermissions => iam::iam_test_permissions_call(opts, env),
        Op::IamListServiceAccounts => iam::iam_list_service_accounts_call(opts, env),
        Op::IamGetServiceAccount => iam::iam_get_service_account_call(opts, env),
    }
}

/// The request of an operation.
pub fn begin(op: Op, opts: &Json, env: &Env) -> (r: Result<Request, Error>)
    ensures
        prepared(r) == call_of(op, opts@, env@),
{
    match op {
        Op::GcsListBuckets => storage::gcs_list_buckets_request(opts, env),
        Op::GcsListObjects => storage::gcs_list_objects_request(opts, env),
        Op::GcsGetObject => storage::gcs_get_object_request(opts, env),
        Op::GcsPutObject => storage::gcs_put_object_request(opts, env),
        Op::GcsDeleteObject => storage::gcs_delete_object_request(opts, env),
        Op::GcsHeadObject => storage::gcs_head_object_request(opts, env),
        Op::GcsCopyObject => storage::gcs_copy_object_request(opts, env),
        Op::GcsCompose => storage::gcs_compose_request(opts, env),
        Op::GcsGetIamPolicy => storage::gcs_get_iam_policy_request(opts, env),
        Op::GcsSetIamPolicy => storage::gcs_set_iam_policy_request(opts, env),
        Op::PubsubPublish => topics::pubsub_publish_request(opts, env),
        Op::PubsubPull => topics::pubsub_pull_request(opts, env),
        Op::PubsubAck => topics::pubsub_ack_request(opts, env),
        Op::PubsubListTopics => topics::pubsub_list_topics_request(opts, env),
        Op::PubsubListSubscriptions => topics::pubsub_list_subscriptions_request(opts, env),
        Op::PubsubCreateTopic => topics::pubsub_create_topic_request(opts, env),
        Op::PubsubCreateSubscription => topics::pubsub_create_subscription_request(opts, env),
        Op::PubsubGetTopic => topics::pubsub_get_topic_request(opts, env),
        Op::PubsubTopicSubscriptions => topics::pubsub_topic_subscriptions_request(opts, env),
        Op::PubsubDeleteTopic => topics::pubsub_delete_topic_request(opts, env),
        Op::PubsubDeleteSubscription => topics::pubsub_delete_subscription_request(opts, env),
        Op::SecretAccess => secrets::secret_access_request(opts, env),
        Op::SecretCreate => secrets::secret_create_request(opts, env),
        Op::SecretAddVersion => secrets::secret_add_version_request(opts, env),
        Op::SecretListVersions => secrets::secret_list_versions_request(opts, env),
        Op::SecretDelete => secrets::secret_delete_request(opts, env),
        Op::SecretList => secrets::secret_list_request(opts, env),
        Op::BigqueryQuery => bigquery::bigquery_query_request(opts, env),
        Op::BigqueryInsert => bigquery::bigquery_insert_request(opts, env),
        Op::BigqueryListDatasets => bigquery::bigquery_list_datasets_request(opts, env),
        Op::BigqueryGetDataset => bigquery::bigquery_get_dataset_request(opts, env),
        Op::BigqueryListTables => bigquery::bigquery_list_tables_request(opts, env),
        Op::BigqueryGetTable => bigquery::bigquery_get_table_request(opts, env),
        Op::BigqueryListJobs => bigquery::bigquery_list_jobs_request(opts, env),
        Op::FirestoreGet => documents::firestore_get_request(opts, env),
        Op::FirestoreSet => documents::firestore_set_request(opts, env),
        Op::FirestoreDelete => documents::firestore_delete_request(opts, env),
        Op::FirestoreList => documents::firestore_list_request(opts, env),
        Op::FirestoreQuery => documents::firestore_query_request(opts, env),
        Op::FirestoreCreate => documents::firestore_create_request(opts, env),
        Op::ComputeListInstances => compute::compute_list_instances_request(opts, env),
        Op::ComputeGetInstance => compute::compute_get_instance_request(opts, env),
        Op::ComputeStartInstance => compute::compute_start_instance_request(opts, env),
        Op::ComputeStopInstance => compute::compute_stop_instance_request(opts, env),
        Op::ComputeResetInstance => compute::compute_reset_instance_request(opts, env),
        Op::ComputeListZones => compute::compute_list_zones_request(opts, env),
        Op::ComputeListRegions => compute::compute_list_regions_request(opts, env),
        Op::ComputeListMachineTypes => compute::compute_list_machine_types_request(opts, env),
        Op::ComputeListDisks => compute::compute_list_disks_request(opts, env),
        Op::RunListServices => run::run_list_services_request(opts, env),
        Op::RunGetService => run::run_get_service_request(opts, env),
        Op::RunListRevisions => run::run_list_revisions_request(opts, env),
        Op::FunctionsList => functions::functions_list_request(opts, env),
        Op::FunctionsDescribe => functions::functions_describe_request(opts, env),
        Op::LoggingListEntries => logging::logging_list_entries_request(opts, env),
        Op::LoggingWriteEntry => logging::logging_write_entry_request(opts, env),
        Op::LoggingListLogs => logging::logging_list_logs_request(opts, env),
        Op::MonitoringListTimeSeries => monitoring::monitoring_list_time_series_request(opts, env),
        Op::MonitoringListMetricDescriptors => monitoring::monitoring_list_metric_descriptors_request(
            opts,
            env,
        ),
        Op::IamGetPolicy => iam::iam_get_policy_request(opts, env),
        Op::IamTestPermissions => iam::iam_test_permissions_request(opts, env),
        Op::IamListServiceAccounts => iam::iam_list_service_accounts_request(opts, env),
        Op::IamGetServiceAccount => iam::iam_get_service_account_request(opts, env),
    }
}

/// What is read of a reply.
#[derive(Clone, Copy, Debug, PartialEq, Eq, Structural)]
pub enum Expected {
    /// A JSON document.
    Document,
    /// The bytes of the reply.
    Bytes,
    /// Nothing.
    Nothing,
}

/// What is read of the reply to an operation.
pub open spec fn expected_of(op: Op) -> Expected {
    match op {
        Op::GcsGetObject => Expected::Bytes,
        Op::GcsDeleteObject
        | Op::PubsubAck
        | Op::PubsubDeleteTopic
        | Op::PubsubDeleteSubscription
        | Op::SecretDelete
        | Op::FirestoreDelete
        | Op::LoggingWriteEntry => Expected::Nothing,
        _ => Expected::Document,
    }
}

/// What is read of the reply to an operation.
pub fn expects(op: Op) -> (r: Expected)
    ensures
        r == expected_of(op),
{
    match op {
        Op::GcsGetObject => Expected::Bytes,
        Op::GcsDeleteObject
        | Op::PubsubAck
        | Op::PubsubDeleteTopic
        | Op::PubsubDeleteSubscription
        | Op::SecretDelete
        | Op::FirestoreDelete
        | Op::LoggingWriteEntry => Expected::Nothing,
        _ => Expected::Document,
    }
}

/// What is done about the status of a reply.
#[derive(Clone, Copy, Debug, PartialEq, Eq, Structural)]
pub enum Disposition {
    /// The reply is read.
    Read,
    /// The operation is done: what it asks for is not there.
    Absent,
    /// The operation fails.
    Failed,
}

/// What is done about a status: a document that is not found is absent; any other status of a
/// client's or a server's error fails the operation.
pub open spec fn disposition(op: Op, status: u16) -> Disposition {
    if op == Op::FirestoreGet && status == 404 {
        Disposition::Absent
    } else if 400 <= status < 600 {
        Disposition::Failed
    } else {
        Disposition::Read
    }
}

/// What is done about the status of the reply to an operation.
pub fn on_status(op: Op, status: u16) -> (r: Disposition)
    ensures
        r == disposition(op, status),
{
    if op == Op::FirestoreGet && status == 404 {
        Disposition::Absent
    } else if 400 <= status && status < 600 {
        Disposition::Failed
    } else {
        Disposition::Read
    }
}

/// What was read of a reply.
#[derive(Debug)]
pub enum Reply {
    Document(Json),
    Bytes(Vec<u8>),
    Nothing,
    /// What the operation asks for is not there.
    Absent,
}

pub enum ReplyView {
    Document(JsonView),
    Bytes(Seq<u8>),
    Nothing,
    Absent,
}

impl View for Reply {
    type V = ReplyView;

    open spec fn view(&self) -> ReplyView {
        match *self {
            Reply::Document(j) => ReplyView::Document(j@),
            Reply::Bytes(b) => ReplyView::Bytes(b@),
            Reply::Nothing => ReplyView::Nothing,
            Reply::Absent => ReplyView::Absent,
        }
    }
}

/// The document of a reply, null where it has none.
pub open spec fn document(reply: ReplyView) -> JsonView {
    match reply {
        ReplyView::Document(j) => j,
        _ => JsonView::Null,
    }
}

/// The bytes of a reply, none where it has none.
pub open spec fn bytes(reply: ReplyView) -> Seq<u8> {
    match reply {
        ReplyView::Bytes(b) => b,
        _ => Seq::empty(),
    }
}

/// The result of an operation, where the service replied so.
pub open spec fn result_of(op: Op, opts: JsonView, env: EnvView, reply: ReplyView) -> Result<
    JsonView,
    Seq<char>,
> {
    match op {
        Op::GcsListBuckets => storage::gcs_list_buckets_result(opts, env, document(reply)),
        Op::GcsListObjects => storage::gcs_list_objects_result(opts, env, document(reply)),
        Op::GcsGetObject => storage::gcs_get_object_result(opts, env, bytes(reply)),
        Op::GcsPutObject => storage::gcs_put_object_result(opts, env, document(reply)),
        Op::GcsDeleteObject => storage::gcs_delete_object_result(opts, env),
        Op::GcsHeadObject => storage::gcs_head_object_result(opts, env, document(reply)),
        Op::GcsCopyObject => storage::gcs_copy_object_result(opts, env, document(reply)),
        Op::GcsCompose => storage::gcs_compose_result(opts, env, document(reply)),
        Op::GcsGetIamPolicy => storage::gcs_get_iam_policy_result(opts, env, document(reply)),
        Op::GcsSetIamPolicy => storage::gcs_set_iam_policy_result(opts, env, document(reply)),
        Op::PubsubPublish => topics::pubsub_publish_result(opts, env, document(reply)),
        Op::PubsubPull => topics::pubsub_pull_result(opts, env, document(reply)),
        Op::PubsubAck => topics::pubsub_ack_result(opts, env),
        Op::PubsubListTopics => topics::pubsub_list_topics_result(opts, env, document(reply)),
        Op::PubsubListSubscriptions => topics::pubsub_list_subscriptions_result(
            opts,
            env,
            document(reply),
        ),
        Op::PubsubCreateTopic => topics::pubsub_create_topic_result(opts, env, document(reply)),
        Op::PubsubCreateSubscription => topics::pubsub_create_subscription_result(
            opts,
            env,
            document(reply),
        ),
        Op::PubsubGetTopic => topics::pubsub_get_topic_result(opts, env, document(reply)),
        Op::PubsubTopicSubscriptions => topics::pubsub_topic_subscriptions_result(
            opts,
            env,
            document(reply),
        ),
        Op::PubsubDeleteTopic => topics::pubsub_delete_topic_result(opts, env),
        Op::PubsubDeleteSubscription => topics::pubsub_delete_subscription_result(opts, env),
        Op::SecretAccess => secrets::secret_access_result(opts, env, document(reply)),
        Op::SecretCreate => secrets::secret_create_result(opts, env, document(reply)),
        Op::SecretAddVersion => secrets::secret_add_version_result(opts, env, document(reply)),
        Op::SecretListVersions => secrets::secret_list_versions_result(opts, env, document(reply)),
        Op::SecretDelete => secrets::secret_delete_result(opts, env),
        Op::SecretList => secrets::secret_list_result(opts, env, document(reply)),
        Op::BigqueryQuery => bigquery::bigquery_query_result(opts, env, document(reply)),
        Op::BigqueryInsert => bigquery::bigquery_insert_result(opts, env, document(reply)),
        Op::BigqueryListDatasets => bigquery::bigquery_list_datasets_result(
            opts,
            env,
            document(reply),
        ),
        Op::BigqueryGetDataset => bigquery::bigquery_get_dataset_result(opts, env, document(reply)),
        Op::BigqueryListTables => bigquery::bigquery_list_tables_result(opts, env, document(reply)),
        Op::BigqueryGetTable => bigquery::bigquery_get_table_result(opts, env, document(reply)),
        Op::BigqueryListJobs => bigquery::bigquery_list_jobs_result(opts, env, document(reply)),
        Op::FirestoreGet => if reply is Absent {
            documents::firestore_get_absent_result(opts, env)
        } else {
            documents::firestore_get_result(opts, env, document(reply))
        },
        Op::FirestoreSet => documents::firestore_set_result(opts, env, document(reply)),
        Op::FirestoreDelete => documents::firestore_delete_result(opts, env),
        Op::FirestoreList => documents::firestore_list_result(opts, env, document(reply)),
        Op::FirestoreQuery => documents::firestore_query_result(opts, env, document(reply)),
        Op::FirestoreCreate => documents::firestore_create_result(opts, env, document(reply)),
        Op::ComputeListInstances => compute::compute_list_instances_result(
            opts,
            env,
            document(reply),
        ),
        Op::ComputeGetInstance => compute::compute_get_instance_result(opts, env, document(reply)),
        Op::ComputeStartInstance => compute::compute_instance_action_result(
            opts,
            env,
            "start"@,
            document(reply),
        ),
        Op::ComputeStopInstance => compute::compute_instance_action_result(
            opts,
            env,
            "stop"@,
            document(reply),
        ),
        Op::ComputeResetInstance => compute::compute_instance_action_result(
            opts,
            env,
            "reset"@,
            document(reply),
        ),
        Op::ComputeListZones => compute::compute_list_zones_result(opts, env, document(reply)),
        Op::ComputeListRegions => compute::compute_list_regions_result(opts, env, document(reply)),
        Op::ComputeListMachineTypes => compute::compute_list_machine_types_result(
            opts,
            env,
            document(reply),
        ),
        Op::ComputeListDisks => compute::compute_list_disks_result(opts, env, document(reply)),
        Op::RunListServices => run::run_list_services_result(opts, env, document(reply)),
        Op::RunGetService => run::run_get_service_result(opts, env, document(reply)),
        Op::RunListRevisions => run::run_list_revisions_result(opts, env, document(reply)),
        Op::FunctionsList => functions::functions_list_result(opts, env, document(reply)),
        Op::FunctionsDescribe => functions::functions_describe_result(opts, env, document(reply)),
        Op::LoggingListEntries => logging::logging_list_entries_result(opts, env, document(reply)),
        Op::LoggingWriteEntry => logging::logging_write_entry_result(opts, env),
        Op::LoggingListLogs => logging::logging_list_logs_result(opts, env, document(reply)),
        Op::MonitoringListTimeSeries => monitoring::monitoring_list_time_series_result(
            opts,
            env,
            document(reply),
        ),
        Op::MonitoringListMetricDescriptors => monitoring::monitoring_list_metric_descriptors_result(
            opts,
            env,
            document(reply),
        ),
        Op::IamGetPolicy => iam::iam_get_policy_result(opts, env, document(reply)),
        Op::IamTestPermissions => iam::iam_test_permissions_result(opts, env, document(reply)),
        Op::IamListServiceAccounts => iam::iam_list_service_accounts_result(
            opts,
            env,
            document(reply),
        ),
        Op::IamGetServiceAccount => iam::iam_get_service_account_result(opts, env, document(reply)),
    }
}

/// The result of an operation, where the service replied so.
pub fn complete(op: Op, opts: &Json, env: &Env, reply: Reply) -> (r: Result<Json, Error>)
    ensures
        outcome(r) == result_of(op, opts@, env@, reply@),
{
    let ghost replied = reply@;
    let mut absent: bool = false;
    let mut body: Json = Json::Null;
    let mut raw: Vec<u8> = Vec::new();
    match reply {
        Reply::Document(j) => {
            body = j;
        },
        Reply::Bytes(b) => {
            raw = b;
        },
        Reply::Nothing => {},
        Reply::Absent => {
            absent = true;
        },
    }
    assert(body@ == document(replied));
    assert(raw@ =~= bytes(replied));
    match op {
        Op::GcsListBuckets => storage::op_gcs_list_buckets(opts, env, &body),
        Op::GcsListObjects => storage::op_gcs_list_objects(opts, env, &body),
        Op::GcsGetObject => storage::op_gcs_get_object(opts, env, &raw),
        Op::GcsPutObject => storage::op_gcs_put_object(opts, env, &body),
        Op::GcsDeleteObject => storage::op_gcs_delete_object(opts, env),
        Op::GcsHeadObject => storage::op_gcs_head_object(opts, env, &body),
        Op::GcsCopyObject => storage::op_gcs_copy_object(opts, env, &body),
        Op::GcsCompose => storage::op_gcs_compose(opts, env, &body),
        Op::GcsGetIamPolicy => storage::op_gcs_get_iam_policy(opts, env, &body),
        Op::GcsSetIamPolicy => storage::op_gcs_set_iam_policy(opts, env, &body),
        Op::PubsubPublish => topics::op_pubsub_publish(opts, env, &body),
        Op::PubsubPull => topics::op_pubsub_pull(opts, env, &body),
        Op::PubsubAck => topics::op_pubsub_ack(opts, env),
        Op::PubsubListTopics => topics::op_pubsub_list_topics(opts, env, &body),
        Op::PubsubListSubscriptions => topics::op_pubsub_list_subscriptions(opts, env, &body),
        Op::PubsubCreateTopic => topics::op_pubsub_create_topic(opts, env, &body),
        Op::PubsubCreateSubscription => topics::op_pubsub_create_subscription(opts, env, &body),
        Op::PubsubGetTopic => topics::op_pubsub_get_topic(opts, env, &body),
        Op::PubsubTopicSubscriptions => topics::op_pubsub_topic_subscriptions(opts, env, &body),
        Op::PubsubDeleteTopic => topics::op_pubsub_delete_topic(opts, env),
        Op::PubsubDeleteSubscription => topics::op_pubsub_delete_subscription(opts, env),
        Op::SecretAccess => secrets::op_secret_access(opts, env, &body),
        Op::SecretCreate => secrets::op_secret_create(opts, env, &body),
        Op::SecretAddVersion => secrets::op_secret_add_version(opts, env, &body),
        Op::SecretListVersions => secrets::op_secret_list_versions(opts, env, &body),
        Op::SecretDelete => secrets::op_secret_delete(opts, env),
        Op::SecretList => secrets::op_secret_list(opts, env, &body),
        Op::BigqueryQuery => bigquery::op_bigquery_query(opts, env, &body),
        Op::BigqueryInsert => bigquery::op_bigquery_insert(opts, env, &body),
        Op::BigqueryListDatasets => bigquery::op_bigquery_list_datasets(opts, env, &body),
        Op::BigqueryGetDataset => bigquery::op_bigquery_get_dataset(opts, env, &body),
        Op::BigqueryListTables => bigquery::op_bigquery_list_tables(opts, env, &body),
        Op::BigqueryGetTable => bigquery::op_bigquery_get_table(opts, env, &body),
        Op::BigqueryListJobs => bigquery::op_bigquery_list_jobs(opts, env, &body),
        Op::FirestoreGet => if absent {
            documents::op_firestore_get_absent(opts, env)
        } else {
            documents::op_firestore_get(opts, env, &body)
        },
        Op::FirestoreSet => documents::op_firestore_set(opts, env, &body),
        Op::FirestoreDelete => documents::op_firestore_delete(opts, env),
        Op::FirestoreList => documents::op_firestore_list(opts, env, &body),
        Op::FirestoreQuery => documents::op_firestore_query(opts, env, &body),
        Op::FirestoreCreate => documents::op_firestore_create(opts, env, &body),
        Op::ComputeListInstances => compute::op_compute_list_instances(opts, env, &body),
        Op::ComputeGetInstance => compute::op_compute_get_instance(opts, env, &body),
        Op::ComputeStartInstance => compute::op_compute_start_instance(opts, env, &body),
        Op::ComputeStopInstance => compute::op_compute_stop_instance(opts, env, &body),
        Op::ComputeResetInstance => compute::op_compute_reset_instance(opts, env, &body),
        Op::ComputeListZones => compute::op_compute_list_zones(opts, env, &body),
        Op::ComputeListRegions => compute::op_compute_list_regions(opts, env, &body),
        Op::ComputeListMachineTypes => compute::op_compute_list_machine_types(opts, env, &body),
        Op::ComputeListDisks => compute::op_compute_list_disks(opts, env, &body),
        Op::RunListServices => run::op_run_list_services(opts, env, &body),
        Op::RunGetService => run::op_run_get_service(opts, env, &body),
        Op::RunListRevisions => run::op_run_list_revisions(opts, env, &body),
        Op::FunctionsList => functions::op_functions_list(opts, env, &body),
        Op::FunctionsDescribe => functions::op_functions_describe(opts, env, &body),
        Op::LoggingListEntries => logging::op_logging_list_entries(opts, env, &body),
        Op::LoggingWriteEntry => logging::op_logging_write_entry(opts, env),
        Op::LoggingListLogs => logging::op_logging_list_logs(opts, env, &body),
        Op::MonitoringListTimeSeries => monitoring::op_monitoring_list_time_series(
            opts,
            env,
            &body,
        ),
        Op::MonitoringListMetricDescriptors => monitoring::op_monitoring_list_metric_descriptors(
            opts,
            env,
            &body,
        ),
        Op::IamGetPolicy => iam::op_iam_get_policy(opts, env, &body),
        Op::IamTestPermissions => iam::op_iam_test_permissions(opts, env, &body),
        Op::IamListServiceAccounts => iam::op_iam_list_service_accounts(opts, env, &body),
        Op::IamGetServiceAccount => iam::op_iam_get_service_account(opts, env, &body),
    }
}

/// What is answered: the value, or an object with the message under `error`.
pub open spec fn answered(r: Result<JsonView, Seq<char>>) -> JsonView {
    match r {
        Ok(v) => v,
        Err(message) => JsonView::Obj(map!["error"@ => JsonView::Str(message)]),
    }
}

/// What is answered to the caller of an operation.
pub fn answer(r: Result<Json, Error>) -> (a: Json)
    ensures
        a@ == answered(outcome(r)),
{
    match r {
        Ok(v) => v,
        Err(e) => Json::Object(Members::new().with("error", Json::text(e.to_text()))),
    }
}

/// The version of this package, as its manifest has it.
pub const VERSION: &'static str = "0.19.0";

/// The version of this package.
pub fn op_pkg_version() -> (r: Json)
    ensures
        r@ == JsonView::Obj(map!["version"@ => JsonView::Str(VERSION@)]),
{
    Json::Object(Members::new().with("version", Json::text(VERSION)))
}

/// An error of the request is the error of the result; where there is a request there is a result.
pub open spec fn follows(
    call: Result<RequestView, Seq<char>>,
    result: Result<JsonView, Seq<char>>,
) -> bool {
    match call {
        Err(e) => result == Err::<JsonView, Seq<char>>(e),
        Ok(_) => result is Ok,
    }
}

proof fn lemma_storage_follow(opts: JsonView, env: EnvView, body: JsonView, raw: Seq<u8>)
    ensures
        follows(
            storage::gcs_list_buckets_call(opts, env),
            storage::gcs_list_buckets_result(opts, env, body),
        ),
        follows(
            storage::gcs_list_objects_call(opts, env),
            storage::gcs_list_objects_result(opts, env, body),
        ),
        follows(
            storage::gcs_get_object_call(opts, env),
            storage::gcs_get_object_result(opts, env, raw),
        ),
        follows(
            storage::gcs_put_object_call(opts, env),
            storage::gcs_put_object_result(opts, env, body),
        ),
        follows(
            storage::gcs_delete_object_call(opts, env),
            storage::gcs_delete_object_result(opts, env),
        ),
        follows(
            storage::gcs_head_object_call(opts, env),
            storage::gcs_head_object_result(opts, env, body),
        ),
        follows(
            storage::gcs_copy_object_call(opts, env),
            storage::gcs_copy_object_result(opts, env, body),
        ),
        follows(storage::gcs_compose_call(opts, env), storage::gcs_compose_result(opts, env, body)),
        follows(
            storage::gcs_get_iam_policy_call(opts, env),
            storage::gcs_get_iam_policy_result(opts, env, body),
        ),
        follows(
            storage::gcs_set_iam_policy_call(opts, env),
            storage::gcs_set_iam_policy_result(opts, env, body),
        ),
{
}

proof fn lemma_topics_follow(opts: JsonView, env: EnvView, body: JsonView)
    ensures
        follows(
            topics::pubsub_publish_call(opts, env),
            topics::pubsub_publish_result(opts, env, body),
        ),
        follows(topics::pubsub_pull_call(opts, env), topics::pubsub_pull_result(opts, env, body)),
        follows(topics::pubsub_ack_call(opts, env), topics::pubsub_ack_result(opts, env)),
        follows(
            topics::pubsub_list_topics_call(opts, env),
            topics::pubsub_list_topics_result(opts, env, body),
        ),
        follows(
            topics::pubsub_list_subscriptions_call(opts, env),
            topics::pubsub_list_subscriptions_result(opts, env, body),
        ),
        follows(
            topics::pubsub_create_topic_call(opts, env),
            topics::pubsub_create_topic_result(opts, env, body),
        ),
        follows(
            topics::pubsub_create_subscription_call(opts, env),
            topics::pubsub_create_subscription_result(opts, env, body),
        ),
        follows(
            topics::pubsub_get_topic_call(opts, env),
            topics::pubsub_get_topic_result(opts, env, body),
        ),
        follows(
            topics::pubsub_topic_subscriptions_call(opts, env),
            topics::pubsub_topic_subscriptions_result(opts, env, body),
        ),
        follows(
            topics::pubsub_delete_topic_call(opts, env),
            topics::pubsub_delete_topic_result(opts, env),
        ),
        follows(
            topics::pubsub_delete_subscription_call(opts, env),
            topics::pubsub_delete_subscription_result(opts, env),
        ),
{
}

proof fn lemma_secrets_follow(opts: JsonView, env: EnvView, body: JsonView)
    ensures
        follows(
            secrets::secret_create_call(opts, env),
            secrets::secret_create_result(opts, env, body),
        ),
        follows(
            secrets::secret_add_version_call(opts, env),
            secrets::secret_add_version_result(opts, env, body),
        ),
        follows(
            secrets::secret_list_versions_call(opts, env),
            secrets::secret_list_versions_result(opts, env, body),
        ),
        follows(secrets::secret_delete_call(opts, env), secrets::secret_delete_result(opts, env)),
        follows(secrets::secret_list_call(opts, env), secrets::secret_list_result(opts, env, body)),
{
}

proof fn lemma_bigquery_follow(opts: JsonView, env: EnvView, body: JsonView)
    ensures
        follows(
            bigquery::bigquery_query_call(opts, env),
            bigquery::bigquery_query_result(opts, env, body),
        ),
        follows(
            bigquery::bigquery_insert_call(opts, env),
            bigquery::bigquery_insert_result(opts, env, body),
        ),
        follows(
            bigquery::bigquery_list_datasets_call(opts, env),
            bigquery::bigquery_list_datasets_result(opts, env, body),
        ),
        follows(
            bigquery::bigquery_get_dataset_call(opts, env),
            bigquery::bigquery_get_dataset_result(opts, env, body),
        ),
        follows(
            bigquery::bigquery_list_tables_call(opts, env),
            bigquery::bigquery_list_tables_result(opts, env, body),
        ),
        follows(
            bigquery::bigquery_get_table_call(opts, env),
            bigquery::bigquery_get_table_result(opts, env, body),
        ),
        follows(
            bigquery::bigquery_list_jobs_call(opts, env),
            bigquery::bigquery_list_jobs_result(opts, env, body),
        ),
{
}

proof fn lemma_documents_follow(opts: JsonView, env: EnvView, body: JsonView)
    ensures
        follows(
            documents::firestore_get_call(opts, env),
            documents::firestore_get_result(opts, env, body),
        ),
        follows(
            documents::firestore_get_call(opts, env),
            documents::firestore_get_absent_result(opts, env),
        ),
        follows(
            documents::firestore_set_call(opts, env),
            documents::firestore_set_result(opts, env, body),
        ),
        follows(
            documents::firestore_delete_call(opts, env),
            documents::firestore_delete_result(opts, env),
        ),
        follows(
            documents::firestore_list_call(opts, env),
            documents::firestore_list_result(opts, env, body),
        ),
        follows(
            documents::firestore_query_call(opts, env),
            documents::firestore_query_result(opts, env, body),
        ),
        follows(
            documents::firestore_create_call(opts, env),
            documents::firestore_create_result(opts, env, body),
        ),
{
}

proof fn lemma_compute_follow(opts: JsonView, env: EnvView, body: JsonView)
    ensures
        follows(
            compute::compute_list_instances_call(opts, env),
            compute::compute_list_instances_result(opts, env, body),
        ),
        follows(
            compute::compute_get_instance_call(opts, env),
            compute::compute_get_instance_result(opts, env, body),
        ),
        follows(
            compute::compute_instance_action_call(opts, env, "start"@),
            compute::compute_instance_action_result(opts, env, "start"@, body),
        ),
        follows(
            compute::compute_instance_action_call(opts, env, "stop"@),
            compute::compute_instance_action_result(opts, env, "stop"@, body),
        ),
        follows(
            compute::compute_instance_action_call(opts, env, "reset"@),
            compute::compute_instance_action_result(opts, env, "reset"@, body),
        ),
        follows(
            compute::compute_list_zones_call(opts, env),
            compute::compute_list_zones_result(opts, env, body),
        ),
        follows(
            compute::compute_list_regions_call(opts, env),
            compute::compute_list_regions_result(opts, env, body),
        ),
        follows(
            compute::compute_list_machine_types_call(opts, env),
            compute::compute_list_machine_types_result(opts, env, body),
        ),
        follows(
            compute::compute_list_disks_call(opts, env),
            compute::compute_list_disks_result(opts, env, body),
        ),
{
}

proof fn lemma_run_follow(opts: JsonView, env: EnvView, body: JsonView)
    ensures
        follows(
            run::run_list_services_call(opts, env),
            run::run_list_services_result(opts, env, body),
        ),
        follows(run::run_get_service_call(opts, env), run::run_get_service_result(opts, env, body)),
        follows(
            run::run_list_revisions_call(opts, env),
            run::run_list_revisions_result(opts, env, body),
        ),
{
}

proof fn lemma_functions_follow(opts: JsonView, env: EnvView, body: JsonView)
    ensures
        follows(
            functions::functions_list_call(opts, env),
            functions::functions_list_result(opts, env, body),
        ),
        follows(
            functions::functions_describe_call(opts, env),
            functions::functions_describe_result(opts, env, body),
        ),
{
}

proof fn lemma_logging_follow(opts: JsonView, env: EnvView, body: JsonView)
    ensures
        follows(
            logging::logging_list_entries_call(opts, env),
            logging::logging_list_entries_result(opts, env, body),
        ),
        follows(
            logging::logging_write_entry_call(opts, env),
            logging::logging_write_entry_result(opts, env),
        ),
        follows(
            logging::logging_list_logs_call(opts, env),
            logging::logging_list_logs_result(opts, env, body),
        ),
{
}

proof fn lemma_monitoring_follow(opts: JsonView, env: EnvView, body: JsonView)
    ensures
        follows(
            monitoring::monitoring_list_time_series_call(opts, env),
            monitoring::monitoring_list_time_series_result(opts, env, body),
        ),
        follows(
            monitoring::monitoring_list_metric_descriptors_call(opts, env),
            monitoring::monitoring_list_metric_descriptors_result(opts, env, body),
        ),
{
}

proof fn lemma_iam_follow(opts: JsonView, env: EnvView, body: JsonView)
    ensures
        follows(iam::iam_get_policy_call(opts, env), iam::iam_get_policy_result(opts, env, body)),
        follows(
            iam::iam_test_permissions_call(opts, env),
            iam::iam_test_permissions_result(opts, env, body),
        ),
        follows(
            iam::iam_list_service_accounts_call(opts, env),
            iam::iam_list_service_accounts_result(opts, env, body),
        ),
        follows(
            iam::iam_get_service_account_call(opts, env),
            iam::iam_get_service_account_result(opts, env, body),
        ),
{
}

/// The answer to the result has a member `error` exactly where the result is an error.
pub open spec fn tells_errors(r: Result<JsonView, Seq<char>>) -> bool {
    answered(r).get("error"@) is Some <==> r is Err
}

/// A result has no member `error`.
pub open spec fn errorless(r: Result<JsonView, Seq<char>>) -> bool {
    r matches Ok(v) ==> v.get("error"@) is None
}

/// No member of a result is called `error`.
proof fn lemma_names()
    ensures
        "acked"@ != "error"@,
        "action"@ != "error"@,
        "added"@ != "error"@,
        "body"@ != "error"@,
        "bucket"@ != "error"@,
        "buckets"@ != "error"@,
        "bytes"@ != "error"@,
        "collection"@ != "error"@,
        "columns"@ != "error"@,
        "complete"@ != "error"@,
        "content_type"@ != "error"@,
        "created"@ != "error"@,
        "data"@ != "error"@,
        "dataset"@ != "error"@,
        "datasets"@ != "error"@,
        "deleted"@ != "error"@,
        "descriptors"@ != "error"@,
        "disks"@ != "error"@,
        "document"@ != "error"@,
        "documents"@ != "error"@,
        "dst_bucket"@ != "error"@,
        "dst_key"@ != "error"@,
        "email"@ != "error"@,
        "entries"@ != "error"@,
        "errors"@ != "error"@,
        "etag"@ != "error"@,
        "function"@ != "error"@,
        "functions"@ != "error"@,
        "generation"@ != "error"@,
        "has_parent"@ != "error"@,
        "id"@ != "error"@,
        "inserted"@ != "error"@,
        "instance"@ != "error"@,
        "instances"@ != "error"@,
        "jobs"@ != "error"@,
        "key"@ != "error"@,
        "legacy"@ != "error"@,
        "log"@ != "error"@,
        "logs"@ != "error"@,
        "machine_types"@ != "error"@,
        "md5_hash"@ != "error"@,
        "message_ids"@ != "error"@,
        "messages"@ != "error"@,
        "name"@ != "error"@,
        "object"@ != "error"@,
        "objects"@ != "error"@,
        "operation"@ != "error"@,
        "pairs"@ != "error"@,
        "parent"@ != "error"@,
        "parts"@ != "error"@,
        "permissions"@ != "error"@,
        "policy"@ != "error"@,
        "project"@ != "error"@,
        "reason"@ != "error"@,
        "region"@ != "error"@,
        "regions"@ != "error"@,
        "resource"@ != "error"@,
        "revisions"@ != "error"@,
        "rows"@ != "error"@,
        "secret"@ != "error"@,
        "secrets"@ != "error"@,
        "service"@ != "error"@,
        "service_accounts"@ != "error"@,
        "services"@ != "error"@,
        "size"@ != "error"@,
        "status"@ != "error"@,
        "subscription"@ != "error"@,
        "subscriptions"@ != "error"@,
        "table"@ != "error"@,
        "table_ref"@ != "error"@,
        "tables"@ != "error"@,
        "time_series"@ != "error"@,
        "topic"@ != "error"@,
        "topics"@ != "error"@,
        "total_rows"@ != "error"@,
        "trailing"@ != "error"@,
        "update_time"@ != "error"@,
        "updated"@ != "error"@,
        "uri"@ != "error"@,
        "url"@ != "error"@,
        "valid"@ != "error"@,
        "value"@ != "error"@,
        "version"@ != "error"@,
        "versions"@ != "error"@,
        "written"@ != "error"@,
        "zone"@ != "error"@,
        "zone_letter"@ != "error"@,
        "zones"@ != "error"@,
{
    reveal_strlit("error");
    assert("error"@.len() == 5 && "error"@[0] == 'e' && "error"@[1] == 'r');
    reveal_strlit("acked");
    assert("acked"@.len() == 5 && "acked"@[0] == 'a');
    reveal_strlit("action");
    assert("action"@.len() == 6);
    reveal_strlit("added");
    assert("added"@.len() == 5 && "added"@[0] == 'a');
    reveal_strlit("body");
    assert("body"@.len() == 4);
    reveal_strlit("bucket");
    assert("bucket"@.len() == 6);
    reveal_strlit("buckets");
    assert("buckets"@.len() == 7);
    reveal_strlit("bytes");
    assert("bytes"@.len() == 5 && "bytes"@[0] == 'b');
    reveal_strlit("collection");
    assert("collection"@.len() == 10);
    reveal_strlit("columns");
    assert("columns"@.len() == 7);
    reveal_strlit("complete");
    assert("complete"@.len() == 8);
    reveal_strlit("content_type");
    assert("content_type"@.len() == 12);
    reveal_strlit("created");
    assert("created"@.len() == 7);
    reveal_strlit("data");
    assert("data"@.len() == 4);
    reveal_strlit("dataset");
    assert("dataset"@.len() == 7);
    reveal_strlit("datasets");
    assert("datasets"@.len() == 8);
    reveal_strlit("deleted");
    assert("deleted"@.len() == 7);
    reveal_strlit("descriptors");
    assert("descriptors"@.len() == 11);
    reveal_strlit("disks");
    assert("disks"@.len() == 5 && "disks"@[0] == 'd');
    reveal_strlit("document");
    assert("document"@.len() == 8);
    reveal_strlit("documents");
    assert("documents"@.len() == 9);
    reveal_strlit("dst_bucket");
    assert("dst_bucket"@.len() == 10);
    reveal_strlit("dst_key");
    assert("dst_key"@.len() == 7);
    reveal_strlit("email");
    assert("email"@.len() == 5 && "email"@[1] == 'm');
    reveal_strlit("entries");
    assert("entries"@.len() == 7);
    reveal_strlit("errors");
    assert("errors"@.len() == 6);
    reveal_strlit("etag");
    assert("etag"@.len() == 4);
    reveal_strlit("function");
    assert("function"@.len() == 8);
    reveal_strlit("functions");
    assert("functions"@.len() == 9);
    reveal_strlit("generation");
    assert("generation"@.len() == 10);
    reveal_strlit("has_parent");
    assert("has_parent"@.len() == 10);
    reveal_strlit("id");
    assert("id"@.len() == 2);
    reveal_strlit("inserted");
    assert("inserted"@.len() == 8);
    reveal_strlit("instance");
    assert("instance"@.len() == 8);
    reveal_strlit("instances");
    assert("instances"@.len() == 9);
    reveal_strlit("jobs");
    assert("jobs"@.len() == 4);
    reveal_strlit("key");
    assert("key"@.len() == 3);
    reveal_strlit("legacy");
    assert("legacy"@.len() == 6);
    reveal_strlit("log");
    assert("log"@.len() == 3);
    reveal_strlit("logs");
    assert("logs"@.len() == 4);
    reveal_strlit("machine_types");
    assert("machine_types"@.len() == 13);
    reveal_strlit("md5_hash");
    assert("md5_hash"@.len() == 8);
    reveal_strlit("message_ids");
    assert("message_ids"@.len() == 11);
    reveal_strlit("messages");
    assert("messages"@.len() == 8);
    reveal_strlit("name");
    assert("name"@.len() == 4);
    reveal_strlit("object");
    assert("object"@.len() == 6);
    reveal_strlit("objects");
    assert("objects"@.len() == 7);
    reveal_strlit("operation");
    assert("operation"@.len() == 9);
    reveal_strlit("pairs");
    assert("pairs"@.len() == 5 && "pairs"@[0] == 'p');
    reveal_strlit("parent");
    assert("parent"@.len() == 6);
    reveal_strlit("parts");
    assert("parts"@.len() == 5 && "parts"@[0] == 'p');
    reveal_strlit("permissions");
    assert("permissions"@.len() == 11);
    reveal_strlit("policy");
    assert("policy"@.len() == 6);
    reveal_strlit("project");
    assert("project"@.len() == 7);
    reveal_strlit("reason");
    assert("reason"@.len() == 6);
    reveal_strlit("region");
    assert("region"@.len() == 6);
    reveal_strlit("regions");
    assert("regions"@.len() == 7);
    reveal_strlit("resource");
    assert("resource"@.len() == 8);
    reveal_strlit("revisions");
    assert("revisions"@.len() == 9);
    reveal_strlit("rows");
    assert("rows"@.len() == 4);
    reveal_strlit("secret");
    assert("secret"@.len() == 6);
    reveal_strlit("secrets");
    assert("secrets"@.len() == 7);
    reveal_strlit("service");
    assert("service"@.len() == 7);
    reveal_strlit("service_accounts");
    assert("service_accounts"@.len() == 16);
    reveal_strlit("services");
    assert("services"@.len() == 8);
    reveal_strlit("size");
    assert("size"@.len() == 4);
    reveal_strlit("status");
    assert("status"@.len() == 6);
    reveal_strlit("subscription");
    assert("subscription"@.len() == 12);
    reveal_strlit("subscriptions");
    assert("subscriptions"@.len() == 13);
    reveal_strlit("table");
    assert("table"@.len() == 5 && "table"@[0] == 't');
    reveal_strlit("table_ref");
    assert("table_ref"@.len() == 9);
    reveal_strlit("tables");
    assert("tables"@.len() == 6);
    reveal_strlit("time_series");
    assert("time_series"@.len() == 11);
    reveal_strlit("topic");
    assert("topic"@.len() == 5 && "topic"@[0] == 't');
    reveal_strlit("topics");
    assert("topics"@.len() == 6);
    reveal_strlit("total_rows");
    assert("total_rows"@.len() == 10);
    reveal_strlit("trailing");
    assert("trailing"@.len() == 8);
    reveal_strlit("update_time");
    assert("update_time"@.len() == 11);
    reveal_strlit("updated");
    assert("updated"@.len() == 7);
    reveal_strlit("uri");
    assert("uri"@.len() == 3);
    reveal_strlit("url");
    assert("url"@.len() == 3);
    reveal_strlit("valid");
    assert("valid"@.len() == 5 && "valid"@[0] == 'v');
    reveal_strlit("value");
    assert("value"@.len() == 5 && "value"@[0] == 'v');
    reveal_strlit("version");
    assert("version"@.len() == 7);
    reveal_strlit("versions");
    assert("versions"@.len() == 8);
    reveal_strlit("written");
    assert("written"@.len() == 7);
    reveal_strlit("zone");
    assert("zone"@.len() == 4);
    reveal_strlit("zone_letter");
    assert("zone_letter"@.len() == 11);
    reveal_strlit("zones");
    assert("zones"@.len() == 5 && "zones"@[0] == 'z');
}

proof fn lemma_storage_errorless(opts: JsonView, env: EnvView, body: JsonView, raw: Seq<u8>)
    ensures
        errorless(storage::gcs_list_buckets_result(opts, env, body)),
        errorless(storage::gcs_list_objects_result(opts, env, body)),
        errorless(storage::gcs_get_object_result(opts, env, raw)),
        errorless(storage::gcs_put_object_result(opts, env, body)),
        errorless(storage::gcs_delete_object_result(opts, env)),
        errorless(storage::gcs_head_object_result(opts, env, body)),
        errorless(storage::gcs_copy_object_result(opts, env, body)),
        errorless(storage::gcs_compose_result(opts, env, body)),
        errorless(storage::gcs_get_iam_policy_result(opts, env, body)),
        errorless(storage::gcs_set_iam_policy_result(opts, env, body)),
{
    lemma_names();
}

proof fn lemma_topics_errorless(opts: JsonView, env: EnvView, body: JsonView)
    ensures
        errorless(topics::pubsub_publish_result(opts, env, body)),
        errorless(topics::pubsub_pull_result(opts, env, body)),
        errorless(topics::pubsub_ack_result(opts, env)),
        errorless(topics::pubsub_list_topics_result(opts, env, body)),
        errorless(topics::pubsub_list_subscriptions_result(opts, env, body)),
        errorless(topics::pubsub_create_topic_result(opts, env, body)),
        errorless(topics::pubsub_create_subscription_result(opts, env, body)),
        errorless(topics::pubsub_get_topic_result(opts, env, body)),
        errorless(topics::pubsub_topic_subscriptions_result(opts, env, body)),
        errorless(topics::pubsub_delete_topic_result(opts, env)),
        errorless(topics::pubsub_delete_subscription_result(opts, env)),
{
    lemma_names();
}

proof fn lemma_secrets_errorless(opts: JsonView, env: EnvView, body: JsonView)
    ensures
        errorless(secrets::secret_create_result(opts, env, body)),
        errorless(secrets::secret_add_version_result(opts, env, body)),
        errorless(secrets::secret_list_versions_result(opts, env, body)),
        errorless(secrets::secret_delete_result(opts, env)),
        errorless(secrets::secret_list_result(opts, env, body)),
        errorless(secrets::secret_access_result(opts, env, body)),
{
    lemma_names();
}

proof fn lemma_bigquery_errorless(opts: JsonView, env: EnvView, body: JsonView)
    ensures
        errorless(bigquery::bigquery_query_result(opts, env, body)),
        errorless(bigquery::bigquery_insert_result(opts, env, body)),
        errorless(bigquery::bigquery_list_datasets_result(opts, env, body)),
        errorless(bigquery::bigquery_get_dataset_result(opts, env, body)),
        errorless(bigquery::bigquery_list_tables_result(opts, env, body)),
        errorless(bigquery::bigquery_get_table_result(opts, env, body)),
        errorless(bigquery::bigquery_list_jobs_result(opts, env, body)),
{
    lemma_names();
}

proof fn lemma_documents_errorless(opts: JsonView, env: EnvView, body: JsonView)
    ensures
        errorless(documents::firestore_get_result(opts, env, body)),
        errorless(documents::firestore_get_absent_result(opts, env)),
        errorless(documents::firestore_set_result(opts, env, body)),
        errorless(documents::firestore_delete_result(opts, env)),
        errorless(documents::firestore_list_result(opts, env, body)),
        errorless(documents::firestore_query_result(opts, env, body)),
        errorless(documents::firestore_create_result(opts, env, body)),
{
    lemma_names();
}

proof fn lemma_compute_errorless(opts: JsonView, env: EnvView, body: JsonView)
    ensures
        errorless(compute::compute_list_instances_result(opts, env, body)),
        errorless(compute::compute_get_instance_result(opts, env, body)),
        errorless(compute::compute_instance_action_result(opts, env, "start"@, body)),
        errorless(compute::compute_instance_action_result(opts, env, "stop"@, body)),
        errorless(compute::compute_instance_action_result(opts, env, "reset"@, body)),
        errorless(compute::compute_list_zones_result(opts, env, body)),
        errorless(compute::compute_list_regions_result(opts, env, body)),
        errorless(compute::compute_list_machine_types_result(opts, env, body)),
        errorless(compute::compute_list_disks_result(opts, env, body)),
{
    lemma_names();
}

proof fn lemma_run_errorless(opts: JsonView, env: EnvView, body: JsonView)
    ensures
        errorless(run::run_list_services_result(opts, env, body)),
        errorless(run::run_get_service_result(opts, env, body)),
        errorless(run::run_list_revisions_result(opts, env, body)),
{
    lemma_names();
}

proof fn lemma_functions_errorless(opts: JsonView, env: EnvView, body: JsonView)
    ensures
        errorless(functions::functions_list_result(opts, env, body)),
        errorless(functions::functions_describe_result(opts, env, body)),
{
    lemma_names();
}

proof fn lemma_logging_errorless(opts: JsonView, env: EnvView, body: JsonView)
    ensures
        errorless(logging::logging_list_entries_result(opts, env, body)),
        errorless(logging::logging_write_entry_result(opts, env)),
        errorless(logging::logging_list_logs_result(opts, env, body)),
{
    lemma_names();
}

proof fn lemma_monitoring_errorless(opts: JsonView, env: EnvView, body: JsonView)
    ensures
        errorless(monitoring::monitoring_list_time_series_result(opts, env, body)),
        errorless(monitoring::monitoring_list_metric_descriptors_result(opts, env, body)),
{
    lemma_names();
}

proof fn lemma_iam_errorless(opts: JsonView, env: EnvView, body: JsonView)
    ensures
        errorless(iam::iam_get_policy_result(opts, env, body)),
        errorless(iam::iam_test_permissions_result(opts, env, body)),
        errorless(iam::iam_list_service_accounts_result(opts, env, body)),
        errorless(iam::iam_get_service_account_result(opts, env, body)),
{
    lemma_names();
}

/// An operation whose request cannot be made results in the same error, whatever a service would
/// reply; one whose request can be made has a result, except that the payload of a secret may not
/// be readable.
pub proof fn results_follow_requests(op: Op, opts: JsonView, env: EnvView, reply: ReplyView)
    ensures
        call_of(op, opts, env) matches Err(e) ==> result_of(op, opts, env, reply) == Err::<
            JsonView,
            Seq<char>,
        >(e),
        call_of(op, opts, env) is Ok && op != Op::SecretAccess ==> result_of(
            op,
            opts,
            env,
            reply,
        ) is Ok,
        call_of(Op::SecretAccess, opts, env) is Ok ==> (result_of(
            Op::SecretAccess,
            opts,
            env,
            reply,
        ) is Ok <==> secrets::payload(secrets::payload_data(document(reply))) is Ok),
{
    match op {
        Op::GcsListBuckets
        | Op::GcsListObjects
        | Op::GcsGetObject
        | Op::GcsPutObject
        | Op::GcsDeleteObject
        | Op::GcsHeadObject
        | Op::GcsCopyObject
        | Op::GcsCompose
        | Op::GcsGetIamPolicy
        | Op::GcsSetIamPolicy => {
            lemma_storage_follow(opts, env, document(reply), bytes(reply));
        },
        Op::PubsubPublish
        | Op::PubsubPull
        | Op::PubsubAck
        | Op::PubsubListTopics
        | Op::PubsubListSubscriptions
        | Op::PubsubCreateTopic
        | Op::PubsubCreateSubscription
        | Op::PubsubGetTopic
        | Op::PubsubTopicSubscriptions
        | Op::PubsubDeleteTopic
        | Op::PubsubDeleteSubscription => {
            lemma_topics_follow(opts, env, document(reply));
        },
        Op::SecretCreate
        | Op::SecretAddVersion
        | Op::SecretListVersions
        | Op::SecretDelete
        | Op::SecretList => {
            lemma_secrets_follow(opts, env, document(reply));
        },
        Op::BigqueryQuery
        | Op::BigqueryInsert
        | Op::BigqueryListDatasets
        | Op::BigqueryGetDataset
        | Op::BigqueryListTables
        | Op::BigqueryGetTable
        | Op::BigqueryListJobs => {
            lemma_bigquery_follow(opts, env, document(reply));
        },
        Op::FirestoreGet
        | Op::FirestoreSet
        | Op::FirestoreDelete
        | Op::FirestoreList
        | Op::FirestoreQuery
        | Op::FirestoreCreate => {
            lemma_documents_follow(opts, env, document(reply));
        },
        Op::ComputeListInstances
        | Op::ComputeGetInstance
        | Op::ComputeStartInstance
        | Op::ComputeStopInstance
        | Op::ComputeResetInstance
        | Op::ComputeListZones
        | Op::ComputeListRegions
        | Op::ComputeListMachineTypes
        | Op::ComputeListDisks => {
            lemma_compute_follow(opts, env, document(reply));
        },
        Op::RunListServices
        | Op::RunGetService
        | Op::RunListRevisions => {
            lemma_run_follow(opts, env, document(reply));
        },
        Op::FunctionsList
        | Op::FunctionsDescribe => {
            lemma_functions_follow(opts, env, document(reply));
        },
        Op::LoggingListEntries
        | Op::LoggingWriteEntry
        | Op::LoggingListLogs => {
            lemma_logging_follow(opts, env, document(reply));
        },
        Op::MonitoringListTimeSeries
        | Op::MonitoringListMetricDescriptors => {
            lemma_monitoring_follow(opts, env, document(reply));
        },
        Op::IamGetPolicy
        | Op::IamTestPermissions
        | Op::IamListServiceAccounts
        | Op::IamGetServiceAccount => {
            lemma_iam_follow(opts, env, document(reply));
        },
        Op::SecretAccess => {},
    }
}

/// An answer has a member `error` exactly where the operation has failed.
pub proof fn answers_tell_errors_apart(op: Op, opts: JsonView, env: EnvView, reply: ReplyView)
    ensures
        tells_errors(result_of(op, opts, env, reply)),
{
    match op {
        Op::GcsListBuckets
        | Op::GcsListObjects
        | Op::GcsGetObject
        | Op::GcsPutObject
        | Op::GcsDeleteObject
        | Op::GcsHeadObject
        | Op::GcsCopyObject
        | Op::GcsCompose
        | Op::GcsGetIamPolicy
        | Op::GcsSetIamPolicy => {
            lemma_storage_errorless(opts, env, document(reply), bytes(reply));
        },
        Op::PubsubPublish
        | Op::PubsubPull
        | Op::PubsubAck
        | Op::PubsubListTopics
        | Op::PubsubListSubscriptions
        | Op::PubsubCreateTopic
        | Op::PubsubCreateSubscription
        | Op::PubsubGetTopic
        | Op::PubsubTopicSubscriptions
        | Op::PubsubDeleteTopic
        | Op::PubsubDeleteSubscription => {
            lemma_topics_errorless(opts, env, document(reply));
        },
        Op::SecretCreate
        | Op::SecretAddVersion
        | Op::SecretListVersions
        | Op::SecretDelete
        | Op::SecretList => {
            lemma_secrets_errorless(opts, env, document(reply));
        },
        Op::BigqueryQuery
        | Op::BigqueryInsert
        | Op::BigqueryListDatasets
        | Op::BigqueryGetDataset
        | Op::BigqueryListTables
        | Op::BigqueryGetTable
        | Op::BigqueryListJobs => {
            lemma_bigquery_errorless(opts, env, document(reply));
        },
        Op::FirestoreGet
        | Op::FirestoreSet
        | Op::FirestoreDelete
        | Op::FirestoreList
        | Op::FirestoreQuery
        | Op::FirestoreCreate => {
            lemma_documents_errorless(opts, env, document(reply));
        },
        Op::ComputeListInstances
        | Op::ComputeGetInstance
        | Op::ComputeStartInstance
        | Op::ComputeStopInstance
        | Op::ComputeResetInstance
        | Op::ComputeListZones
        | Op::ComputeListRegions
        | Op::ComputeListMachineTypes
        | Op::ComputeListDisks => {
            lemma_compute_errorless(opts, env, document(reply));
        },
        Op::RunListServices
        | Op::RunGetService
        | Op::RunListRevisions => {
            lemma_run_errorless(opts, env, document(reply));
        },
        Op::FunctionsList
        | Op::FunctionsDescribe => {
            lemma_functions_errorless(opts, env, document(reply));
        },
        Op::LoggingListEntries
        | Op::LoggingWriteEntry
        | Op::LoggingListLogs => {
            lemma_logging_errorless(opts, env, document(reply));
        },
        Op::MonitoringListTimeSeries
        | Op::MonitoringListMetricDescriptors => {
            lemma_monitoring_errorless(opts, env, document(reply));
        },
        Op::IamGetPolicy
        | Op::IamTestPermissions
        | Op::IamListServiceAccounts
        | Op::IamGetServiceAccount => {
            lemma_iam_errorless(opts, env, document(reply));
        },
        Op::SecretAccess => {
            lemma_secrets_errorless(opts, env, document(reply));
        },
    }
}

/// The answer of an operation that needs no service has a member `error` exactly where the
/// operation has failed.
pub proof fn answers_without_a_service_tell_errors_apart(opts: JsonView)
    ensures
        tells_errors(gs_uri::parse_gs_uri_result(opts)),
        tells_errors(gs_uri::build_gs_uri_result(opts)),
        tells_errors(gs_uri::gs_uri_to_url_result(opts)),
        tells_errors(gs_uri::url_to_gs_uri_result(opts)),
        tells_errors(resource_name::parse_resource_name_result(opts)),
        tells_errors(resource_name::resource_name_parent_result(opts)),
        tells_errors(resource_name::build_resource_name_result(opts)),
        tells_errors(table_ref::parse_table_ref_result(opts)),
        tells_errors(table_ref::build_table_ref_result(opts)),
        tells_errors(naming::valid_bucket_name_result(opts)),
        tells_errors(naming::valid_project_id_result(opts)),
        tells_errors(naming::valid_object_name_result(opts)),
        tells_errors(naming::region_for_zone_result(opts)),
        tells_errors(naming::valid_label_result(opts)),
        tells_errors(naming::valid_pubsub_id_result(opts)),
        tells_errors(naming::valid_service_account_id_result(opts)),
        tells_errors(naming::valid_secret_id_result(opts)),
        tells_errors(naming::valid_dataset_id_result(opts)),
        tells_errors(naming::valid_table_id_result(opts)),
{
    lemma_names();
}

} // verus!
