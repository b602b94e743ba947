//! The error codes of the server and their meaning.

use vstd::prelude::*;
use crate::api::text::{decimal_text, u64_to_text};

verus! {

/// An error code defined by the server.
#[derive(Clone, Copy, Debug, PartialEq, Eq, Hash)]
pub enum ErrorCode {
    /// No error has occurred.
    NoError,
    /// Will be raised when a general error occurred.
    Failed,
    /// Will be raised when operating system error occurred.
    SysError,
    /// Will be raised when there is a memory shortage.
    OutOfMemory,
    /// Will be raised when an internal error occurred.
    Internal,
    /// Will be raised when an illegal representation of a number was given.
    IllegalNumber,
    /// Will be raised when a numeric overflow occurred.
    NumericOverflow,
    /// Will be raised when an unknown option was supplied by the user.
    IllegalOption,
    /// Will be raised when a PID without a living process was found.
    DeadPid,
    /// Will be raised when hitting an unimplemented feature.
    NotImplemented,
    /// Will be raised when the parameter does not fulfill the requirements.
    BadParameter,
    /// Will be raised when you are missing permission for the operation.
    Forbidden,
    /// Will be raised when there is a memory shortage.
    OutOfMemoryMmap,
    /// Will be raised when encountering a corrupt csv line.
    CorruptedCsv,
    /// Will be raised when a file is not found.
    FileNotFound,
    /// Will be raised when a file cannot be written.
    CannotWriteFile,
    /// Will be raised when an attempt is made to overwrite an existing file.
    CannotOverwriteFile,
    /// Will be raised when a type error is encountered.
    TypeError,
    /// Will be raised when there's a timeout waiting for a lock.
    LockTimeout,
    /// Will be raised when an attempt to create a directory fails.
    CannotCreateDirectory,
    /// Will be raised when an attempt to create a temporary file fails.
    CannotCreateTempFile,
    /// Will be raised when a request is canceled by the user.
    RequestCanceled,
    /// Will be raised intentionally during debugging.
    Debug,
    /// Will be raised when the structure of an IP address is invalid.
    IpAddressInvalid,
    /// Will be raised when a file already exists.
    FileExists,
    /// Will be raised when a resource or an operation is locked.
    Locked,
    /// Will be raised when a deadlock is detected when accessing collections.
    Deadlock,
    /// Will be raised when a call cannot succeed because a server shutdown is already in progress.
    ShuttingDown,
    /// Will be raised when an enterprise-feature is requested from the community edition.
    OnlyEnterprise,
    /// Will be raised when the resources used by an operation exceed the configured maximum value.
    ResourceLimit,
    /// Will be raised when the HTTP request does not fulfill the requirements.
    HttpBadParameter,
    /// Will be raised when authorization is required but the user is not authorized.
    HttpUnauthorized,
    /// Will be raised when the operation is forbidden.
    HttpForbidden,
    /// Will be raised when an URI is unknown.
    HttpNotFound,
    /// Will be raised when an unsupported HTTP method is used for an operation.
    HttpMethodNotAllowed,
    /// Will be raised when an unsupported HTTP content type is used for an operation, or if a request is not acceptable for a leader or follower.
    HttpNotAcceptable,
    /// Will be raised when a conflict with the current state of a resource is found.
    HttpConflict,
    /// Will be raised when a precondition for an HTTP request is not met.
    HttpPreconditionFailed,
    /// Will be raised when an internal server is encountered.
    HttpServerError,
    /// Will be raised when a service is temporarily unavailable.
    HttpServiceUnavailable,
    /// Will be raised when a string representation of a JSON object is corrupt.
    HttpCorruptedJson,
    /// Will be raised when the URL contains superfluous suffices.
    HttpSuperfluousSuffices,
    /// Internal error that will be raised when the datafile is not in the required state.
    ArangoIllegalState,
    /// Internal error that will be raised when trying to write to a datafile.
    ArangoDatafileSealed,
    /// Internal error that will be raised when trying to write to a read-only datafile or collection.
    ArangoReadOnly,
    /// Internal error that will be raised when a identifier duplicate is detected.
    ArangoDuplicateIdentifier,
    /// Internal error that will be raised when a datafile is unreadable.
    ArangoDatafileUnreadable,
    /// Internal error that will be raised when a datafile is empty.
    ArangoDatafileEmpty,
    /// Will be raised when an error occurred during WAL log file recovery.
    ArangoRecovery,
    /// Will be raised when a required datafile statistics object was not found.
    ArangoDatafileStatisticsNotFound,
    /// Will be raised when a corruption is detected in a datafile.
    ArangoCorruptedDatafile,
    /// Will be raised if a parameter file is corrupted or cannot be read.
    ArangoIllegalParameterFile,
    /// Will be raised when a collection contains one or more corrupted data files.
    ArangoCorruptedCollection,
    /// Will be raised when the system call mmap failed.
    ArangoMmapFailed,
    /// Will be raised when the filesystem is full.
    ArangoFilesystemFull,
    /// Will be raised when a journal cannot be created.
    ArangoNoJournal,
    /// Will be raised when the datafile cannot be created or renamed because a file of the same name already exists.
    ArangoDatafileAlreadyExists,
    /// Will be raised when the database directory is locked by a different process.
    ArangoDatadirLocked,
    /// Will be raised when the collection cannot be created because a directory of the same name already exists.
    ArangoCollectionDirectoryAlreadyExists,
    /// Will be raised when the system call msync failed.
    ArangoMsyncFailed,
    /// Will be raised when the server cannot lock the database directory on startup.
    ArangoDatadirUnlockable,
    /// Will be raised when the server waited too long for a datafile to be synced to disk.
    ArangoSyncTimeout,
    /// Will be raised when updating or deleting a document and a conflict has been detected.
    ArangoConflict,
    /// Will be raised when a non-existing database directory was specified when starting the database.
    ArangoDatadirInvalid,
    /// Will be raised when a document with a given identifier or handle is unknown.
    ArangoDocumentNotFound,
    /// Will be raised when a collection with the given identifier or name is unknown.
    ArangoCollectionNotFound,
    /// Will be raised when the collection parameter is missing.
    ArangoCollectionParameterMissing,
    /// Will be raised when a document handle is corrupt.
    ArangoDocumentHandleBad,
    /// Will be raised when the maximal size of the journal is too small.
    ArangoMaximalSizeTooSmall,
    /// Will be raised when a name duplicate is detected.
    ArangoDuplicateName,
    /// Will be raised when an illegal name is detected.
    ArangoIllegalName,
    /// Will be raised when no suitable index for the query is known.
    ArangoNoIndex,
    /// Will be raised when there is a unique constraint violation.
    ArangoUniqueConstraintViolated,
    /// Will be raised when a view with the given identifier or name is unknown.
    ArangoViewNotFound,
    /// Will be raised when an index with a given identifier is unknown.
    ArangoIndexNotFound,
    /// Will be raised when a cross-collection is requested.
    ArangoCrossCollectionRequest,
    /// Will be raised when a index handle is corrupt.
    ArangoIndexHandleBad,
    /// Will be raised when the document cannot fit into any datafile because of it is too large.
    ArangoDocumentTooLarge,
    /// Will be raised when a collection should be unloaded, but has a different status.
    ArangoCollectionNotUnloaded,
    /// Will be raised when an invalid collection type is used in a request.
    ArangoCollectionTypeInvalid,
    /// Will be raised when the validation of an attribute of a structure failed.
    ArangoValidationFailed,
    /// Will be raised when parsing an attribute name definition failed.
    ArangoAttributeParserFailed,
    /// Will be raised when a document key is corrupt.
    ArangoDocumentKeyBad,
    /// Will be raised when a user-defined document key is supplied for collections with auto key generation.
    ArangoDocumentKeyUnexpected,
    /// Will be raised when the server's database directory is not writable for the current user.
    ArangoDatadirNotWritable,
    /// Will be raised when a key generator runs out of keys.
    ArangoOutOfKeys,
    /// Will be raised when a document key is missing.
    ArangoDocumentKeyMissing,
    /// Will be raised when there is an attempt to create a document with an invalid type.
    ArangoDocumentTypeInvalid,
    /// Will be raised when a non-existing database is accessed.
    ArangoDatabaseNotFound,
    /// Will be raised when an invalid database name is used.
    ArangoDatabaseNameInvalid,
    /// Will be raised when an operation is requested in a database other than the system database.
    ArangoUseSystemDatabase,
    /// Will be raised when there is an attempt to delete a non-existing endpoint.
    ArangoEndpointNotFound,
    /// Will be raised when an invalid key generator description is used.
    ArangoInvalidKeyGenerator,
    /// will be raised when the _from or _to values of an edge are undefined or contain an invalid value.
    ArangoInvalidEdgeAttribute,
    /// Will be raised when an attempt to insert a document into an index is caused by in the document not having one or more attributes which the index is built on.
    ArangoIndexDocumentAttributeMissing,
    /// Will be raised when an attempt to create an index has failed.
    ArangoIndexCreationFailed,
    /// Will be raised when the server is write-throttled and a write operation has waited too long for the server to process queued operations.
    ArangoWriteThrottleTimeout,
    /// Will be raised when a collection has a different type from what has been expected.
    ArangoCollectionTypeMismatch,
    /// Will be raised when a collection is accessed that is not yet loaded.
    ArangoCollectionNotLoaded,
    /// Will be raised when a document revision is corrupt or is missing where needed.
    ArangoDocumentRevBad,
    /// Will be raised when the datafile reaches its limit.
    ArangoDatafileFull,
    /// Will be raised when encountering an empty server database directory.
    ArangoEmptyDatadir,
    /// Will be raised when an operation should be retried.
    ArangoTryAgain,
    /// Will be raised when storage engine is busy.
    ArangoBusy,
    /// Will be raised when storage engine has a datafile merge in progress and cannot complete the operation.
    ArangoMergeInProgress,
    /// Will be raised when storage engine encounters an I/O error.
    ArangoIoError,
    /// Will be raised when the replication applier does not receive any or an incomplete response from the master.
    ReplicationNoResponse,
    /// Will be raised when the replication applier receives an invalid response from the master.
    ReplicationInvalidResponse,
    /// Will be raised when the replication applier receives a server error from the master.
    ReplicationMasterError,
    /// Will be raised when the replication applier connects to a master that has an incompatible version.
    ReplicationMasterIncompatible,
    /// Will be raised when the replication applier connects to a different master than before.
    ReplicationMasterChange,
    /// Will be raised when the replication applier is asked to connect to itself for replication.
    ReplicationLoop,
    /// Will be raised when an unexpected marker is found in the replication log stream.
    ReplicationUnexpectedMarker,
    /// Will be raised when an invalid replication applier state file is found.
    ReplicationInvalidApplierState,
    /// Will be raised when an unexpected transaction id is found.
    ReplicationUnexpectedTransaction,
    /// Will be raised when the configuration for the replication applier is invalid.
    ReplicationInvalidApplierConfiguration,
    /// Will be raised when there is an attempt to perform an operation while the replication applier is running.
    ReplicationRunning,
    /// Special error code used to indicate the replication applier was stopped by a user.
    ReplicationApplierStopped,
    /// Will be raised when the replication applier is started without a known start tick value.
    ReplicationNoStartTick,
    /// Will be raised when the replication applier fetches data using a start tick, but that start tick is not present on the logger server anymore.
    ReplicationStartTickNotPresent,
    /// Will be raised when the format of the checksum is wrong
    ReplicationWrongChecksumFormat,
    /// Will be raised when a new born follower submits a wrong checksum
    ReplicationWrongChecksum,
    /// Will be raised when none of the agency servers can be connected to.
    ClusterNoAgency,
    /// Will be raised when a DB server in a cluster receives a HTTP request without a coordinator header.
    ClusterNoCoordinatorHeader,
    /// Will be raised when a coordinator in a cluster cannot lock the Plan hierarchy in the agency.
    ClusterCouldNotLockPlan,
    /// Will be raised when a coordinator in a cluster tries to create a collection and the collection ID already exists.
    ClusterCollectionIdExists,
    /// Will be raised when a coordinator in a cluster cannot create an entry for a new collection in the Plan hierarchy in the agency.
    ClusterCouldNotCreateCollectionInPlan,
    /// Will be raised when a coordinator in a cluster cannot read the Version entry in the Current hierarchy in the agency.
    ClusterCouldNotReadCurrentVersion,
    /// Will be raised when a coordinator in a cluster notices that some DBServers report problems when creating shards for a new collection.
    ClusterCouldNotCreateCollection,
    /// Will be raised when a coordinator in a cluster runs into a timeout for some cluster wide operation.
    ClusterTimeout,
    /// Will be raised when a coordinator in a cluster cannot remove an entry for a collection in the Plan hierarchy in the agency.
    ClusterCouldNotRemoveCollectionInPlan,
    /// Will be raised when a coordinator in a cluster cannot remove an entry for a collection in the Current hierarchy in the agency.
    ClusterCouldNotRemoveCollectionInCurrent,
    /// Will be raised when a coordinator in a cluster cannot create an entry for a new database in the Plan hierarchy in the agency.
    ClusterCouldNotCreateDatabaseInPlan,
    /// Will be raised when a coordinator in a cluster notices that some DBServers report problems when creating databases for a new cluster wide database.
    ClusterCouldNotCreateDatabase,
    /// Will be raised when a coordinator in a cluster cannot remove an entry for a database in the Plan hierarchy in the agency.
    ClusterCouldNotRemoveDatabaseInPlan,
    /// Will be raised when a coordinator in a cluster cannot remove an entry for a database in the Current hierarchy in the agency.
    ClusterCouldNotRemoveDatabaseInCurrent,
    /// Will be raised when a coordinator in a cluster cannot determine the shard that is responsible for a given document.
    ClusterShardGone,
    /// Will be raised when a coordinator in a cluster loses an HTTP connection to a DBserver in the cluster whilst transferring data.
    ClusterConnectionLost,
    /// Will be raised when a coordinator in a cluster finds that the _key attribute was specified in a sharded collection the uses not only _key as sharding attribute.
    ClusterMustNotSpecifyKey,
    /// Will be raised if a coordinator in a cluster gets conflicting results from different shards, which should never happen.
    ClusterGotContradictingAnswers,
    /// Will be raised if a coordinator tries to find out which shard is responsible for a partial document, but cannot do this because not all sharding attributes are specified.
    ClusterNotAllShardingAttributesGiven,
    /// Will be raised if there is an attempt to update the value of a shard attribute.
    ClusterMustNotChangeShardingAttributes,
    /// Will be raised when there is an attempt to carry out an operation that is not supported in the context of a sharded collection.
    ClusterUnsupported,
    /// Will be raised if there is an attempt to run a coordinator-only operation on a different type of node.
    ClusterOnlyOnCoordinator,
    /// Will be raised if a coordinator or DBserver cannot read the Plan in the agency.
    ClusterReadingPlanAgency,
    /// Will be raised if a coordinator cannot truncate all shards of a cluster collection.
    ClusterCouldNotTruncateCollection,
    /// Will be raised if the internal communication of the cluster for AQL produces an error.
    ClusterAqlCommunication,
    /// Will be raised when a document with a given identifier or handle is unknown, or if the sharding attributes have been changed in a REPLACE operation in the cluster.
    ArangoDocumentNotFoundOrShardingAttributesChanged,
    /// Will be raised if a cluster server at startup could not determine its own ID from the local info provided.
    ClusterCouldNotDetermineId,
    /// Will be raised if there is an attempt to run a DBserver-only operation on a different type of node.
    ClusterOnlyOnDbserver,
    /// Will be raised if a required db server can't be reached.
    ClusterBackendUnavailable,
    /// An endpoint couldn't be found
    ClusterUnknownCallbackEndpoint,
    /// The structure in the agency is invalid
    ClusterAgencyStructureInvalid,
    /// Will be raised if a collection needed during query execution is out of sync. This currently can only happen when using satellite collections
    ClusterAqlCollectionOutOfSync,
    /// Will be raised when a coordinator in a cluster cannot create an entry for a new index in the Plan hierarchy in the agency.
    ClusterCouldNotCreateIndexInPlan,
    /// Will be raised when a coordinator in a cluster cannot remove an index from the Plan hierarchy in the agency.
    ClusterCouldNotDropIndexInPlan,
    /// Will be raised if one tries to create a collection with a distributeShardsLike attribute which points to another collection that also has one.
    ClusterChainOfDistributeshardslike,
    /// Will be raised if one tries to drop a collection to which another collection points with its distributeShardsLike attribute.
    ClusterMustNotDropCollOtherDistributeshardslike,
    /// Will be raised if one tries to create a collection which points to an unknown collection in its distributeShardsLike attribute.
    ClusterUnknownDistributeshardslike,
    /// Will be raised if one tries to create a collection with a replicationFactor greater than the available number of DBServers.
    ClusterInsufficientDbservers,
    /// Will be raised if a follower that ought to be dropped could not be dropped in the agency (under Current).
    ClusterCouldNotDropFollower,
    /// Will be raised if a replication operation is refused by a shard leader.
    ClusterShardLeaderRefusesReplication,
    /// Will be raised if a non-replication operation is refused by a shard follower.
    ClusterShardFollowerRefusesOperation,
    /// Will be raised if a non-replication operation is refused by a former shard leader that has found out that it is no longer the leader.
    ClusterShardLeaderResigned,
    /// Will be raised if after various retries an agency operation could not be performed successfully.
    ClusterAgencyCommunicationFailed,
    /// Will be raised if intended replication factor does not match that of the prototype shard given in ditributeShardsLike parameter.
    ClusterDistributeShardsLikeReplicationFactor,
    /// Will be raised if intended number of shards does not match that of the prototype shard given in ditributeShardsLike parameter.
    ClusterDistributeShardsLikeNumberOfShards,
    /// Will be raised when a running query is killed by an explicit admin command.
    QueryKilled,
    /// Will be raised when query is parsed and is found to be syntactically invalid.
    QueryParse,
    /// Will be raised when an empty query is specified.
    QueryEmpty,
    /// Will be raised when a runtime error is caused by the query.
    QueryScript,
    /// Will be raised when a number is outside the expected range.
    QueryNumberOutOfRange,
    /// Will be raised when an invalid variable name is used.
    QueryVariableNameInvalid,
    /// Will be raised when a variable gets re-assigned in a query.
    QueryVariableRedeclared,
    /// Will be raised when an unknown variable is used or the variable is undefined the context it is used.
    QueryVariableNameUnknown,
    /// Will be raised when a read lock on the collection cannot be acquired.
    QueryCollectionLockFailed,
    /// Will be raised when the number of collections in a query is beyond the allowed value.
    QueryTooManyCollections,
    /// Will be raised when a document attribute is re-assigned.
    QueryDocumentAttributeRedeclared,
    /// Will be raised when an undefined function is called.
    QueryFunctionNameUnknown,
    /// Will be raised when the number of arguments used in a function call does not match the expected number of arguments for the function.
    QueryFunctionArgumentNumberMismatch,
    /// Will be raised when the type of an argument used in a function call does not match the expected argument type.
    QueryFunctionArgumentTypeMismatch,
    /// Will be raised when an invalid regex argument value is used in a call to a function that expects a regex.
    QueryInvalidRegex,
    /// Will be raised when the structure of bind parameters passed has an unexpected format.
    QueryBindParametersInvalid,
    /// Will be raised when a bind parameter was declared in the query but the query is being executed with no value for that parameter.
    QueryBindParameterMissing,
    /// Will be raised when a value gets specified for an undeclared bind parameter.
    QueryBindParameterUndeclared,
    /// Will be raised when a bind parameter has an invalid value or type.
    QueryBindParameterType,
    /// Will be raised when a non-boolean value is used in a logical operation.
    QueryInvalidLogicalValue,
    /// Will be raised when a non-numeric value is used in an arithmetic operation.
    QueryInvalidArithmeticValue,
    /// Will be raised when there is an attempt to divide by zero.
    QueryDivisionByZero,
    /// Will be raised when a non-array operand is used for an operation that expects an array argument operand.
    QueryArrayExpected,
    /// Will be raised when the function FAIL() is called from inside a query.
    QueryFailCalled,
    /// Will be raised when a geo restriction was specified but no suitable geo index is found to resolve it.
    QueryGeoIndexMissing,
    /// Will be raised when a fulltext query is performed on a collection without a suitable fulltext index.
    QueryFulltextIndexMissing,
    /// Will be raised when a value cannot be converted to a date.
    QueryInvalidDateValue,
    /// Will be raised when an AQL query contains more than one data-modifying operation.
    QueryMultiModify,
    /// Will be raised when an AQL query contains an invalid aggregate expression.
    QueryInvalidAggregateExpression,
    /// Will be raised when an AQL data-modification query contains options that cannot be figured out at query compile time.
    QueryCompileTimeOptions,
    /// Will be raised when an AQL data-modification query contains an invalid options specification.
    QueryExceptionOptions,
    /// Will be raised when a collection is used as an operand in an AQL expression.
    QueryCollectionUsedInExpression,
    /// Will be raised when a dynamic function call is made to a function that cannot be called dynamically.
    QueryDisallowedDynamicCall,
    /// Will be raised when collection data are accessed after a data-modification operation.
    QueryAccessAfterModification,
    /// Will be raised when a user function with an invalid name is registered.
    QueryFunctionInvalidName,
    /// Will be raised when a user function is registered with invalid code.
    QueryFunctionInvalidCode,
    /// Will be raised when a user function is accessed but not found.
    QueryFunctionNotFound,
    /// Will be raised when a user function throws a runtime exception.
    QueryFunctionRuntimeError,
    /// Will be raised when an HTTP API for a query got an invalid JSON object.
    QueryBadJsonPlan,
    /// Will be raised when an Id of a query is not found by the HTTP API.
    QueryNotFound,
    /// Will be raised when an Id of a query is found by the HTTP API but the query is in use.
    QueryInUse,
    /// Will be raised when a cursor is requested via its id but a cursor with that id cannot be found.
    CursorNotFound,
    /// Will be raised when a cursor is requested via its id but a concurrent request is still using the cursor.
    CursorBusy,
    /// Will be raised when a wrong usage of transactions is detected. this is an internal error and indicates a bug in ArangoDB.
    TransactionInternal,
    /// Will be raised when transactions are nested.
    TransactionNested,
    /// Will be raised when a collection is used in the middle of a transaction but was not registered at transaction start.
    TransactionUnregisteredCollection,
    /// Will be raised when a disallowed operation is carried out in a transaction.
    TransactionDisallowedOperation,
    /// Will be raised when a transaction was aborted.
    TransactionAborted,
    /// Will be raised when an invalid user name is used.
    UserInvalidName,
    /// Will be raised when an invalid password is used.
    UserInvalidPassword,
    /// Will be raised when a user name already exists.
    UserDuplicate,
    /// Will be raised when a user name is updated that does not exist.
    UserNotFound,
    /// Will be raised when the user must change his password.
    UserChangePassword,
    /// Will be raised when an invalid service name is specified.
    ServiceInvalidName,
    /// Will be raised when an invalid mount is specified.
    ServiceInvalidMount,
    /// Will be raised when a service download from the central repository failed.
    ServiceDownloadFailed,
    /// Will be raised when a service upload from the client to the ArangoDB server failed.
    ServiceUploadFailed,
    /// can not init a LDAP connection
    LdapCannotInit,
    /// can not set a LDAP option
    LdapCannotSetOption,
    /// can not bind to a LDAP server
    LdapCannotBind,
    /// can not unbind from a LDAP server
    LdapCannotUnbind,
    /// can not search the LDAP server
    LdapCannotSearch,
    /// can not star a TLS LDAP session
    LdapCannotStartTls,
    /// LDAP didn't found any objects with the specified search query
    LdapFoundNoObjects,
    /// LDAP found zero ore more than one user
    LdapNotOneUserFound,
    /// LDAP found a user, but its not the desired one
    LdapUserNotIdentified,
    /// cant distinguish a valid mode for provided ldap configuration
    LdapInvalidMode,
    /// Will be raised when a task is created with an invalid id.
    TaskInvalidId,
    /// Will be raised when a task id is created with a duplicate id.
    TaskDuplicateId,
    /// Will be raised when a task with the specified id could not be found.
    TaskNotFound,
    /// Will be raised when an invalid name is passed to the server.
    GraphInvalidGraph,
    /// Will be raised when an invalid name, vertices or edges is passed to the server.
    GraphCouldNotCreateGraph,
    /// Will be raised when an invalid vertex id is passed to the server.
    GraphInvalidVertex,
    /// Will be raised when the vertex could not be created.
    GraphCouldNotCreateVertex,
    /// Will be raised when the vertex could not be changed.
    GraphCouldNotChangeVertex,
    /// Will be raised when an invalid edge id is passed to the server.
    GraphInvalidEdge,
    /// Will be raised when the edge could not be created.
    GraphCouldNotCreateEdge,
    /// Will be raised when the edge could not be changed.
    GraphCouldNotChangeEdge,
    /// Will be raised when too many iterations are done in a graph traversal.
    GraphTooManyIterations,
    /// Will be raised when an invalid filter result is returned in a graph traversal.
    GraphInvalidFilterResult,
    /// An edge collection may only be used once in one edge definition of a graph.
    GraphCollectionMultiUse,
    /// Is already used by another graph in a different edge definition.
    GraphCollectionUseInMultiGraphs,
    /// A graph name is required to create a graph.
    GraphCreateMissingName,
    /// The edge definition is malformed. It has to be an array of objects.
    GraphCreateMalformedEdgeDefinition,
    /// A graph with this name could not be found.
    GraphNotFound,
    /// A graph with this name already exists.
    GraphDuplicate,
    /// The specified vertex collection does not exist or is not part of the graph.
    GraphVertexColDoesNotExist,
    /// The collection is not a vertex collection.
    GraphWrongCollectionTypeVertex,
    /// Vertex collection not in orphan collection of the graph.
    GraphNotInOrphanCollection,
    /// The collection is already used in an edge definition of the graph.
    GraphCollectionUsedInEdgeDef,
    /// The edge collection is not used in any edge definition of the graph.
    GraphEdgeCollectionNotUsed,
    /// The collection is not an ArangoCollection.
    GraphNotAnArangoCollection,
    /// Collection _graphs does not exist.
    GraphNoGraphCollection,
    /// Invalid example type. Has to be String, Array or Object.
    GraphInvalidExampleArrayObjectString,
    /// Invalid example type. Has to be Array or Object.
    GraphInvalidExampleArrayObject,
    /// Invalid number of arguments. Expected: 
    GraphInvalidNumberOfArguments,
    /// Invalid parameter type.
    GraphInvalidParameter,
    /// Invalid id
    GraphInvalidId,
    /// The collection is already used in the orphans of the graph.
    GraphCollectionUsedInOrphans,
    /// The specified edge collection does not exist or is not part of the graph.
    GraphEdgeColDoesNotExist,
    /// The requested graph has no edge collections.
    GraphEmpty,
    /// Will be raised when an invalid/unknown session id is passed to the server.
    SessionUnknown,
    /// Will be raised when a session is expired.
    SessionExpired,
    /// This error should not happen.
    SimpleClientUnknownError,
    /// Will be raised when the client could not connect to the server.
    SimpleClientCouldNotConnect,
    /// Will be raised when the client could not write data.
    SimpleClientCouldNotWrite,
    /// Will be raised when the client could not read data.
    SimpleClientCouldNotRead,
    /// Request was aborted.
    CommunicatorRequestAborted,
    /// Communication was disabled.
    CommunicatorDisabled,
    /// The service manifest file is not well-formed JSON.
    MalformedManifestFile,
    /// The service manifest contains invalid values.
    InvalidServiceManifest,
    /// The service folder or bundle does not exist on this server.
    ServiceFilesMissing,
    /// The local service bundle does not match the checksum in the database.
    ServiceFilesOutdated,
    /// The service options contain invalid values.
    InvalidFoxxOptions,
    /// The service mountpath contains invalid characters.
    InvalidMountpoint,
    /// No service found at the given mountpath.
    ServiceNotFound,
    /// The service is missing configuration or dependencies.
    ServiceNeedsConfiguration,
    /// A service already exists at the given mountpath.
    ServiceMountpointConflict,
    /// The service directory does not contain a manifest file.
    ServiceManifestNotFound,
    /// The service options are not well-formed JSON.
    ServiceOptionsMalformed,
    /// The source path does not match a file or directory.
    ServiceSourceNotFound,
    /// The source path could not be resolved.
    ServiceSourceError,
    /// The service does not have a script with this name.
    ServiceUnknownScript,
    /// The module path could not be resolved.
    ModuleNotFound,
    /// The module could not be parsed because of a syntax error.
    ModuleSyntaxError,
    /// Failed to invoke the module in its context.
    ModuleFailure,
    /// The requested collection needs to be smart, but it ain't
    NoSmartCollection,
    /// The given document does not have the smart graph attribute set.
    NoSmartGraphAttribute,
    /// This smart collection cannot be dropped, it dictates sharding in the graph.
    CannotDropSmartCollection,
    /// In a smart vertex collection _key must be prefixed with the value of the smart graph attribute.
    KeyMustBePrefixedWithSmartGraphAttribute,
    /// The given smartGraph attribute is illegal and connot be used for sharding. All system attributes are forbidden.
    IllegalSmartGraphAttribute,
    /// Inquiry handles a list of string clientIds: [,...].
    AgencyInquirySyntax,
    /// The inform message in the agency must be an object.
    AgencyInformMustBeObject,
    /// The inform message in the agency must contain a uint parameter 'term'.
    AgencyInformMustContainTerm,
    /// The inform message in the agency must contain a string parameter 'id'.
    AgencyInformMustContainId,
    /// The inform message in the agency must contain an array 'active'.
    AgencyInformMustContainActive,
    /// The inform message in the agency must contain an object 'pool'.
    AgencyInformMustContainPool,
    /// The inform message in the agency must contain an object 'min ping'.
    AgencyInformMustContainMinPing,
    /// The inform message in the agency must contain an object 'max ping'.
    AgencyInformMustContainMaxPing,
    /// The inform message in the agency must contain an object 'timeoutMult'.
    AgencyInformMustContainTimeoutMult,
    /// Inquiry by clientId failed
    AgencyInquireClientIdMustBeString,
    /// Will be raised if the readDB or the spearHead cannot be rebuilt from the replicated log.
    AgencyCannotRebuildDbs,
    /// General supervision failure.
    SupervisionGeneralFailure,
    /// Will be returned if a shutdown is in progress.
    DispatcherIsStopping,
    /// Will be returned if a queue with this name does not exist.
    QueueUnknown,
    /// Will be returned if a queue with this name is full.
    QueueFull,
    /// The server returned an error code that is not listed here.
    UnknownError,
}

/// The error code that a number stands for.
pub open spec fn error_code_of(value: u16) -> ErrorCode {
    match value {
        0 => ErrorCode::NoError,
        1 => ErrorCode::Failed,
        2 => ErrorCode::SysError,
        3 => ErrorCode::OutOfMemory,
        4 => ErrorCode::Internal,
        5 => ErrorCode::IllegalNumber,
        6 => ErrorCode::NumericOverflow,
        7 => ErrorCode::IllegalOption,
        8 => ErrorCode::DeadPid,
        9 => ErrorCode::NotImplemented,
        10 => ErrorCode::BadParameter,
        11 => ErrorCode::Forbidden,
        12 => ErrorCode::OutOfMemoryMmap,
        13 => ErrorCode::CorruptedCsv,
        14 => ErrorCode::FileNotFound,
        15 => ErrorCode::CannotWriteFile,
        16 => ErrorCode::CannotOverwriteFile,
        17 => ErrorCode::TypeError,
        18 => ErrorCode::LockTimeout,
        19 => ErrorCode::CannotCreateDirectory,
        20 => ErrorCode::CannotCreateTempFile,
        21 => ErrorCode::RequestCanceled,
        22 => ErrorCode::Debug,
        25 => ErrorCode::IpAddressInvalid,
        27 => ErrorCode::FileExists,
        28 => ErrorCode::Locked,
        29 => ErrorCode::Deadlock,
        30 => ErrorCode::ShuttingDown,
        31 => ErrorCode::OnlyEnterprise,
        32 => ErrorCode::ResourceLimit,
        400 => ErrorCode::HttpBadParameter,
        401 => ErrorCode::HttpUnauthorized,
        403 => ErrorCode::HttpForbidden,
        404 => ErrorCode::HttpNotFound,
        405 => ErrorCode::HttpMethodNotAllowed,
        406 => ErrorCode::HttpNotAcceptable,
        409 => ErrorCode::HttpConflict,
        412 => ErrorCode::HttpPreconditionFailed,
        500 => ErrorCode::HttpServerError,
        503 => ErrorCode::HttpServiceUnavailable,
        600 => ErrorCode::HttpCorruptedJson,
        601 => ErrorCode::HttpSuperfluousSuffices,
        1000 => ErrorCode::ArangoIllegalState,
        1002 => ErrorCode::ArangoDatafileSealed,
        1004 => ErrorCode::ArangoReadOnly,
        1005 => ErrorCode::ArangoDuplicateIdentifier,
        1006 => ErrorCode::ArangoDatafileUnreadable,
        1007 => ErrorCode::ArangoDatafileEmpty,
        1008 => ErrorCode::ArangoRecovery,
        1009 => ErrorCode::ArangoDatafileStatisticsNotFound,
        1100 => ErrorCode::ArangoCorruptedDatafile,
        1101 => ErrorCode::ArangoIllegalParameterFile,
        1102 => ErrorCode::ArangoCorruptedCollection,
        1103 => ErrorCode::ArangoMmapFailed,
        1104 => ErrorCode::ArangoFilesystemFull,
        1105 => ErrorCode::ArangoNoJournal,
        1106 => ErrorCode::ArangoDatafileAlreadyExists,
        1107 => ErrorCode::ArangoDatadirLocked,
        1108 => ErrorCode::ArangoCollectionDirectoryAlreadyExists,
        1109 => ErrorCode::ArangoMsyncFailed,
        1110 => ErrorCode::ArangoDatadirUnlockable,
        1111 => ErrorCode::ArangoSyncTimeout,
        1200 => ErrorCode::ArangoConflict,
        1201 => ErrorCode::ArangoDatadirInvalid,
        1202 => ErrorCode::ArangoDocumentNotFound,
        1203 => ErrorCode::ArangoCollectionNotFound,
        1204 => ErrorCode::ArangoCollectionParameterMissing,
        1205 => ErrorCode::ArangoDocumentHandleBad,
        1206 => ErrorCode::ArangoMaximalSizeTooSmall,
        1207 => ErrorCode::ArangoDuplicateName,
        1208 => ErrorCode::ArangoIllegalName,
        1209 => ErrorCode::ArangoNoIndex,
        1210 => ErrorCode::ArangoUniqueConstraintViolated,
        1211 => ErrorCode::ArangoViewNotFound,
        1212 => ErrorCode::ArangoIndexNotFound,
        1213 => ErrorCode::ArangoCrossCollectionRequest,
        1214 => ErrorCode::ArangoIndexHandleBad,
        1216 => ErrorCode::ArangoDocumentTooLarge,
        1217 => ErrorCode::ArangoCollectionNotUnloaded,
        1218 => ErrorCode::ArangoCollectionTypeInvalid,
        1219 => ErrorCode::ArangoValidationFailed,
        1220 => ErrorCode::ArangoAttributeParserFailed,
        1221 => ErrorCode::ArangoDocumentKeyBad,
        1222 => ErrorCode::ArangoDocumentKeyUnexpected,
        1224 => ErrorCode::ArangoDatadirNotWritable,
        1225 => ErrorCode::ArangoOutOfKeys,
        1226 => ErrorCode::ArangoDocumentKeyMissing,
        1227 => ErrorCode::ArangoDocumentTypeInvalid,
        1228 => ErrorCode::ArangoDatabaseNotFound,
        1229 => ErrorCode::ArangoDatabaseNameInvalid,
        1230 => ErrorCode::ArangoUseSystemDatabase,
        1231 => ErrorCode::ArangoEndpointNotFound,
        1232 => ErrorCode::ArangoInvalidKeyGenerator,
        1233 => ErrorCode::ArangoInvalidEdgeAttribute,
        1234 => ErrorCode::ArangoIndexDocumentAttributeMissing,
        1235 => ErrorCode::ArangoIndexCreationFailed,
        1236 => ErrorCode::ArangoWriteThrottleTimeout,
        1237 => ErrorCode::ArangoCollectionTypeMismatch,
        1238 => ErrorCode::ArangoCollectionNotLoaded,
        1239 => ErrorCode::ArangoDocumentRevBad,
        1300 => ErrorCode::ArangoDatafileFull,
        1301 => ErrorCode::ArangoEmptyDatadir,
        1302 => ErrorCode::ArangoTryAgain,
        1303 => ErrorCode::ArangoBusy,
        1304 => ErrorCode::ArangoMergeInProgress,
        1305 => ErrorCode::ArangoIoError,
        1400 => ErrorCode::ReplicationNoResponse,
        1401 => ErrorCode::ReplicationInvalidResponse,
        1402 => ErrorCode::ReplicationMasterError,
        1403 => ErrorCode::ReplicationMasterIncompatible,
        1404 => ErrorCode::ReplicationMasterChange,
        1405 => ErrorCode::ReplicationLoop,
        1406 => ErrorCode::ReplicationUnexpectedMarker,
        1407 => ErrorCode::ReplicationInvalidApplierState,
        1408 => ErrorCode::ReplicationUnexpectedTransaction,
        1410 => ErrorCode::ReplicationInvalidApplierConfiguration,
        1411 => ErrorCode::ReplicationRunning,
        1412 => ErrorCode::ReplicationApplierStopped,
        1413 => ErrorCode::ReplicationNoStartTick,
        1414 => ErrorCode::ReplicationStartTickNotPresent,
        1415 => ErrorCode::ReplicationWrongChecksumFormat,
        1416 => ErrorCode::ReplicationWrongChecksum,
        1450 => ErrorCode::ClusterNoAgency,
        1451 => ErrorCode::ClusterNoCoordinatorHeader,
        1452 => ErrorCode::ClusterCouldNotLockPlan,
        1453 => ErrorCode::ClusterCollectionIdExists,
        1454 => ErrorCode::ClusterCouldNotCreateCollectionInPlan,
        1455 => ErrorCode::ClusterCouldNotReadCurrentVersion,
        1456 => ErrorCode::ClusterCouldNotCreateCollection,
        1457 => ErrorCode::ClusterTimeout,
        1458 => ErrorCode::ClusterCouldNotRemoveCollectionInPlan,
        1459 => ErrorCode::ClusterCouldNotRemoveCollectionInCurrent,
        1460 => ErrorCode::ClusterCouldNotCreateDatabaseInPlan,
        1461 => ErrorCode::ClusterCouldNotCreateDatabase,
        1462 => ErrorCode::ClusterCouldNotRemoveDatabaseInPlan,
        1463 => ErrorCode::ClusterCouldNotRemoveDatabaseInCurrent,
        1464 => ErrorCode::ClusterShardGone,
        1465 => ErrorCode::ClusterConnectionLost,
        1466 => ErrorCode::ClusterMustNotSpecifyKey,
        1467 => ErrorCode::ClusterGotContradictingAnswers,
        1468 => ErrorCode::ClusterNotAllShardingAttributesGiven,
        1469 => ErrorCode::ClusterMustNotChangeShardingAttributes,
        1470 => ErrorCode::ClusterUnsupported,
        1471 => ErrorCode::ClusterOnlyOnCoordinator,
        1472 => ErrorCode::ClusterReadingPlanAgency,
        1473 => ErrorCode::ClusterCouldNotTruncateCollection,
        1474 => ErrorCode::ClusterAqlCommunication,
        1475 => ErrorCode::ArangoDocumentNotFoundOrShardingAttributesChanged,
        1476 => ErrorCode::ClusterCouldNotDetermineId,
        1477 => ErrorCode::ClusterOnlyOnDbserver,
        1478 => ErrorCode::ClusterBackendUnavailable,
        1479 => ErrorCode::ClusterUnknownCallbackEndpoint,
        1480 => ErrorCode::ClusterAgencyStructureInvalid,
        1481 => ErrorCode::ClusterAqlCollectionOutOfSync,
        1482 => ErrorCode::ClusterCouldNotCreateIndexInPlan,
        1483 => ErrorCode::ClusterCouldNotDropIndexInPlan,
        1484 => ErrorCode::ClusterChainOfDistributeshardslike,
        1485 => ErrorCode::ClusterMustNotDropCollOtherDistributeshardslike,
        1486 => ErrorCode::ClusterUnknownDistributeshardslike,
        1487 => ErrorCode::ClusterInsufficientDbservers,
        1488 => ErrorCode::ClusterCouldNotDropFollower,
        1489 => ErrorCode::ClusterShardLeaderRefusesReplication,
        1490 => ErrorCode::ClusterShardFollowerRefusesOperation,
        1491 => ErrorCode::ClusterShardLeaderResigned,
        1492 => ErrorCode::ClusterAgencyCommunicationFailed,
        1493 => ErrorCode::ClusterDistributeShardsLikeReplicationFactor,
        1494 => ErrorCode::ClusterDistributeShardsLikeNumberOfShards,
        1500 => ErrorCode::QueryKilled,
        1501 => ErrorCode::QueryParse,
        1502 => ErrorCode::QueryEmpty,
        1503 => ErrorCode::QueryScript,
        1504 => ErrorCode::QueryNumberOutOfRange,
        1510 => ErrorCode::QueryVariableNameInvalid,
        1511 => ErrorCode::QueryVariableRedeclared,
        1512 => ErrorCode::QueryVariableNameUnknown,
        1521 => ErrorCode::QueryCollectionLockFailed,
        1522 => ErrorCode::QueryTooManyCollections,
        1530 => ErrorCode::QueryDocumentAttributeRedeclared,
        1540 => ErrorCode::QueryFunctionNameUnknown,
        1541 => ErrorCode::QueryFunctionArgumentNumberMismatch,
        1542 => ErrorCode::QueryFunctionArgumentTypeMismatch,
        1543 => ErrorCode::QueryInvalidRegex,
        1550 => ErrorCode::QueryBindParametersInvalid,
        1551 => ErrorCode::QueryBindParameterMissing,
        1552 => ErrorCode::QueryBindParameterUndeclared,
        1553 => ErrorCode::QueryBindParameterType,
        1560 => ErrorCode::QueryInvalidLogicalValue,
        1561 => ErrorCode::QueryInvalidArithmeticValue,
        1562 => ErrorCode::QueryDivisionByZero,
        1563 => ErrorCode::QueryArrayExpected,
        1569 => ErrorCode::QueryFailCalled,
        1570 => ErrorCode::QueryGeoIndexMissing,
        1571 => ErrorCode::QueryFulltextIndexMissing,
        1572 => ErrorCode::QueryInvalidDateValue,
        1573 => ErrorCode::QueryMultiModify,
        1574 => ErrorCode::QueryInvalidAggregateExpression,
        1575 => ErrorCode::QueryCompileTimeOptions,
        1576 => ErrorCode::QueryExceptionOptions,
        1577 => ErrorCode::QueryCollectionUsedInExpression,
        1578 => ErrorCode::QueryDisallowedDynamicCall,
        1579 => ErrorCode::QueryAccessAfterModification,
        1580 => ErrorCode::QueryFunctionInvalidName,
        1581 => ErrorCode::QueryFunctionInvalidCode,
        1582 => ErrorCode::QueryFunctionNotFound,
        1583 => ErrorCode::QueryFunctionRuntimeError,
        1590 => ErrorCode::QueryBadJsonPlan,
        1591 => ErrorCode::QueryNotFound,
        1592 => ErrorCode::QueryInUse,
        1600 => ErrorCode::CursorNotFound,
        1601 => ErrorCode::CursorBusy,
        1650 => ErrorCode::TransactionInternal,
        1651 => ErrorCode::TransactionNested,
        1652 => ErrorCode::TransactionUnregisteredCollection,
        1653 => ErrorCode::TransactionDisallowedOperation,
        1654 => ErrorCode::TransactionAborted,
        1700 => ErrorCode::UserInvalidName,
        1701 => ErrorCode::UserInvalidPassword,
        1702 => ErrorCode::UserDuplicate,
        1703 => ErrorCode::UserNotFound,
        1704 => ErrorCode::UserChangePassword,
        1750 => ErrorCode::ServiceInvalidName,
        1751 => ErrorCode::ServiceInvalidMount,
        1752 => ErrorCode::ServiceDownloadFailed,
        1753 => ErrorCode::ServiceUploadFailed,
        1800 => ErrorCode::LdapCannotInit,
        1801 => ErrorCode::LdapCannotSetOption,
        1802 => ErrorCode::LdapCannotBind,
        1803 => ErrorCode::LdapCannotUnbind,
        1804 => ErrorCode::LdapCannotSearch,
        1805 => ErrorCode::LdapCannotStartTls,
        1806 => ErrorCode::LdapFoundNoObjects,
        1807 => ErrorCode::LdapNotOneUserFound,
        1808 => ErrorCode::LdapUserNotIdentified,
        1820 => ErrorCode::LdapInvalidMode,
        1850 => ErrorCode::TaskInvalidId,
        1851 => ErrorCode::TaskDuplicateId,
        1852 => ErrorCode::TaskNotFound,
        1901 => ErrorCode::GraphInvalidGraph,
        1902 => ErrorCode::GraphCouldNotCreateGraph,
        1903 => ErrorCode::GraphInvalidVertex,
        1904 => ErrorCode::GraphCouldNotCreateVertex,
        1905 => ErrorCode::GraphCouldNotChangeVertex,
        1906 => ErrorCode::GraphInvalidEdge,
        1907 => ErrorCode::GraphCouldNotCreateEdge,
        1908 => ErrorCode::GraphCouldNotChangeEdge,
        1909 => ErrorCode::GraphTooManyIterations,
        1910 => ErrorCode::GraphInvalidFilterResult,
        1920 => ErrorCode::GraphCollectionMultiUse,
        1921 => ErrorCode::GraphCollectionUseInMultiGraphs,
        1922 => ErrorCode::GraphCreateMissingName,
        1923 => ErrorCode::GraphCreateMalformedEdgeDefinition,
        1924 => ErrorCode::GraphNotFound,
        1925 => ErrorCode::GraphDuplicate,
        1926 => ErrorCode::GraphVertexColDoesNotExist,
        1927 => ErrorCode::GraphWrongCollectionTypeVertex,
        1928 => ErrorCode::GraphNotInOrphanCollection,
        1929 => ErrorCode::GraphCollectionUsedInEdgeDef,
        1930 => ErrorCode::GraphEdgeCollectionNotUsed,
        1931 => ErrorCode::GraphNotAnArangoCollection,
        1932 => ErrorCode::GraphNoGraphCollection,
        1933 => ErrorCode::GraphInvalidExampleArrayObjectString,
        1934 => ErrorCode::GraphInvalidExampleArrayObject,
        1935 => ErrorCode::GraphInvalidNumberOfArguments,
        1936 => ErrorCode::GraphInvalidParameter,
        1937 => ErrorCode::GraphInvalidId,
        1938 => ErrorCode::GraphCollectionUsedInOrphans,
        1939 => ErrorCode::GraphEdgeColDoesNotExist,
        1940 => ErrorCode::GraphEmpty,
        1950 => ErrorCode::SessionUnknown,
        1951 => ErrorCode::SessionExpired,
        2000 => ErrorCode::SimpleClientUnknownError,
        2001 => ErrorCode::SimpleClientCouldNotConnect,
        2002 => ErrorCode::SimpleClientCouldNotWrite,
        2003 => ErrorCode::SimpleClientCouldNotRead,
        2100 => ErrorCode::CommunicatorRequestAborted,
        2101 => ErrorCode::CommunicatorDisabled,
        3000 => ErrorCode::MalformedManifestFile,
        3001 => ErrorCode::InvalidServiceManifest,
        3002 => ErrorCode::ServiceFilesMissing,
        3003 => ErrorCode::ServiceFilesOutdated,
        3004 => ErrorCode::InvalidFoxxOptions,
        3007 => ErrorCode::InvalidMountpoint,
        3009 => ErrorCode::ServiceNotFound,
        3010 => ErrorCode::ServiceNeedsConfiguration,
        3011 => ErrorCode::ServiceMountpointConflict,
        3012 => ErrorCode::ServiceManifestNotFound,
        3013 => ErrorCode::ServiceOptionsMalformed,
        3014 => ErrorCode::ServiceSourceNotFound,
        3015 => ErrorCode::ServiceSourceError,
        3016 => ErrorCode::ServiceUnknownScript,
        3100 => ErrorCode::ModuleNotFound,
        3101 => ErrorCode::ModuleSyntaxError,
        3103 => ErrorCode::ModuleFailure,
        4000 => ErrorCode::NoSmartCollection,
        4001 => ErrorCode::NoSmartGraphAttribute,
        4002 => ErrorCode::CannotDropSmartCollection,
        4003 => ErrorCode::KeyMustBePrefixedWithSmartGraphAttribute,
        4004 => ErrorCode::IllegalSmartGraphAttribute,
        20001 => ErrorCode::AgencyInquirySyntax,
        20011 => ErrorCode::AgencyInformMustBeObject,
        20012 => ErrorCode::AgencyInformMustContainTerm,
        20013 => ErrorCode::AgencyInformMustContainId,
        20014 => ErrorCode::AgencyInformMustContainActive,
        20015 => ErrorCode::AgencyInformMustContainPool,
        20016 => ErrorCode::AgencyInformMustContainMinPing,
        20017 => ErrorCode::AgencyInformMustContainMaxPing,
        20018 => ErrorCode::AgencyInformMustContainTimeoutMult,
        20020 => ErrorCode::AgencyInquireClientIdMustBeString,
        20021 => ErrorCode::AgencyCannotRebuildDbs,
        20501 => ErrorCode::SupervisionGeneralFailure,
        21001 => ErrorCode::DispatcherIsStopping,
        21002 => ErrorCode::QueueUnknown,
        21003 => ErrorCode::QueueFull,
        _ => ErrorCode::UnknownError,
    }
}

/// The number of an error code; `u16::MAX` for an unknown one.
pub open spec fn error_code_value(code: ErrorCode) -> u16 {
    match code {
        ErrorCode::NoError => 0,
        ErrorCode::Failed => 1,
        ErrorCode::SysError => 2,
        ErrorCode::OutOfMemory => 3,
        ErrorCode::Internal => 4,
        ErrorCode::IllegalNumber => 5,
        ErrorCode::NumericOverflow => 6,
        ErrorCode::IllegalOption => 7,
        ErrorCode::DeadPid => 8,
        ErrorCode::NotImplemented => 9,
        ErrorCode::BadParameter => 10,
        ErrorCode::Forbidden => 11,
        ErrorCode::OutOfMemoryMmap => 12,
        ErrorCode::CorruptedCsv => 13,
        ErrorCode::FileNotFound => 14,
        ErrorCode::CannotWriteFile => 15,
        ErrorCode::CannotOverwriteFile => 16,
        ErrorCode::TypeError => 17,
        ErrorCode::LockTimeout => 18,
        ErrorCode::CannotCreateDirectory => 19,
        ErrorCode::CannotCreateTempFile => 20,
        ErrorCode::RequestCanceled => 21,
        ErrorCode::Debug => 22,
        ErrorCode::IpAddressInvalid => 25,
        ErrorCode::FileExists => 27,
        ErrorCode::Locked => 28,
        ErrorCode::Deadlock => 29,
        ErrorCode::ShuttingDown => 30,
        ErrorCode::OnlyEnterprise => 31,
        ErrorCode::ResourceLimit => 32,
        ErrorCode::HttpBadParameter => 400,
        ErrorCode::HttpUnauthorized => 401,
        ErrorCode::HttpForbidden => 403,
        ErrorCode::HttpNotFound => 404,
        ErrorCode::HttpMethodNotAllowed => 405,
        ErrorCode::HttpNotAcceptable => 406,
        ErrorCode::HttpConflict => 409,
        ErrorCode::HttpPreconditionFailed => 412,
        ErrorCode::HttpServerError => 500,
        ErrorCode::HttpServiceUnavailable => 503,
        ErrorCode::HttpCorruptedJson => 600,
        ErrorCode::HttpSuperfluousSuffices => 601,
        ErrorCode::ArangoIllegalState => 1000,
        ErrorCode::ArangoDatafileSealed => 1002,
        ErrorCode::ArangoReadOnly => 1004,
        ErrorCode::ArangoDuplicateIdentifier => 1005,
        ErrorCode::ArangoDatafileUnreadable => 1006,
        ErrorCode::ArangoDatafileEmpty => 1007,
        ErrorCode::ArangoRecovery => 1008,
        ErrorCode::ArangoDatafileStatisticsNotFound => 1009,
        ErrorCode::ArangoCorruptedDatafile => 1100,
        ErrorCode::ArangoIllegalParameterFile => 1101,
        ErrorCode::ArangoCorruptedCollection => 1102,
        ErrorCode::ArangoMmapFailed => 1103,
        ErrorCode::ArangoFilesystemFull => 1104,
        ErrorCode::ArangoNoJournal => 1105,
        ErrorCode::ArangoDatafileAlreadyExists => 1106,
        ErrorCode::ArangoDatadirLocked => 1107,
        ErrorCode::ArangoCollectionDirectoryAlreadyExists => 1108,
        ErrorCode::ArangoMsyncFailed => 1109,
        ErrorCode::ArangoDatadirUnlockable => 1110,
        ErrorCode::ArangoSyncTimeout => 1111,
        ErrorCode::ArangoConflict => 1200,
        ErrorCode::ArangoDatadirInvalid => 1201,
        ErrorCode::ArangoDocumentNotFound => 1202,
        ErrorCode::ArangoCollectionNotFound => 1203,
        ErrorCode::ArangoCollectionParameterMissing => 1204,
        ErrorCode::ArangoDocumentHandleBad => 1205,
        ErrorCode::ArangoMaximalSizeTooSmall => 1206,
        ErrorCode::ArangoDuplicateName => 1207,
        ErrorCode::ArangoIllegalName => 1208,
        ErrorCode::ArangoNoIndex => 1209,
        ErrorCode::ArangoUniqueConstraintViolated => 1210,
        ErrorCode::ArangoViewNotFound => 1211,
        ErrorCode::ArangoIndexNotFound => 1212,
        ErrorCode::ArangoCrossCollectionRequest => 1213,
        ErrorCode::ArangoIndexHandleBad => 1214,
        ErrorCode::ArangoDocumentTooLarge => 1216,
        ErrorCode::ArangoCollectionNotUnloaded => 1217,
        ErrorCode::ArangoCollectionTypeInvalid => 1218,
        ErrorCode::ArangoValidationFailed => 1219,
        ErrorCode::ArangoAttributeParserFailed => 1220,
        ErrorCode::ArangoDocumentKeyBad => 1221,
        ErrorCode::ArangoDocumentKeyUnexpected => 1222,
        ErrorCode::ArangoDatadirNotWritable => 1224,
        ErrorCode::ArangoOutOfKeys => 1225,
        ErrorCode::ArangoDocumentKeyMissing => 1226,
        ErrorCode::ArangoDocumentTypeInvalid => 1227,
        ErrorCode::ArangoDatabaseNotFound => 1228,
        ErrorCode::ArangoDatabaseNameInvalid => 1229,
        ErrorCode::ArangoUseSystemDatabase => 1230,
        ErrorCode::ArangoEndpointNotFound => 1231,
        ErrorCode::ArangoInvalidKeyGenerator => 1232,
        ErrorCode::ArangoInvalidEdgeAttribute => 1233,
        ErrorCode::ArangoIndexDocumentAttributeMissing => 1234,
        ErrorCode::ArangoIndexCreationFailed => 1235,
        ErrorCode::ArangoWriteThrottleTimeout => 1236,
        ErrorCode::ArangoCollectionTypeMismatch => 1237,
        ErrorCode::ArangoCollectionNotLoaded => 1238,
        ErrorCode::ArangoDocumentRevBad => 1239,
        ErrorCode::ArangoDatafileFull => 1300,
        ErrorCode::ArangoEmptyDatadir => 1301,
        ErrorCode::ArangoTryAgain => 1302,
        ErrorCode::ArangoBusy => 1303,
        ErrorCode::ArangoMergeInProgress => 1304,
        ErrorCode::ArangoIoError => 1305,
        ErrorCode::ReplicationNoResponse => 1400,
        ErrorCode::ReplicationInvalidResponse => 1401,
        ErrorCode::ReplicationMasterError => 1402,
        ErrorCode::ReplicationMasterIncompatible => 1403,
        ErrorCode::ReplicationMasterChange => 1404,
        ErrorCode::ReplicationLoop => 1405,
        ErrorCode::ReplicationUnexpectedMarker => 1406,
        ErrorCode::ReplicationInvalidApplierState => 1407,
        ErrorCode::ReplicationUnexpectedTransaction => 1408,
        ErrorCode::ReplicationInvalidApplierConfiguration => 1410,
        ErrorCode::ReplicationRunning => 1411,
        ErrorCode::ReplicationApplierStopped => 1412,
        ErrorCode::ReplicationNoStartTick => 1413,
        ErrorCode::ReplicationStartTickNotPresent => 1414,
        ErrorCode::ReplicationWrongChecksumFormat => 1415,
        ErrorCode::ReplicationWrongChecksum => 1416,
        ErrorCode::ClusterNoAgency => 1450,
        ErrorCode::ClusterNoCoordinatorHeader => 1451,
        ErrorCode::ClusterCouldNotLockPlan => 1452,
        ErrorCode::ClusterCollectionIdExists => 1453,
        ErrorCode::ClusterCouldNotCreateCollectionInPlan => 1454,
        ErrorCode::ClusterCouldNotReadCurrentVersion => 1455,
        ErrorCode::ClusterCouldNotCreateCollection => 1456,
        ErrorCode::ClusterTimeout => 1457,
        ErrorCode::ClusterCouldNotRemoveCollectionInPlan => 1458,
        ErrorCode::ClusterCouldNotRemoveCollectionInCurrent => 1459,
        ErrorCode::ClusterCouldNotCreateDatabaseInPlan => 1460,
        ErrorCode::ClusterCouldNotCreateDatabase => 1461,
        ErrorCode::ClusterCouldNotRemoveDatabaseInPlan => 1462,
        ErrorCode::ClusterCouldNotRemoveDatabaseInCurrent => 1463,
        ErrorCode::ClusterShardGone => 1464,
        ErrorCode::ClusterConnectionLost => 1465,
        ErrorCode::ClusterMustNotSpecifyKey => 1466,
        ErrorCode::ClusterGotContradictingAnswers => 1467,
        ErrorCode::ClusterNotAllShardingAttributesGiven => 1468,
        ErrorCode::ClusterMustNotChangeShardingAttributes => 1469,
        ErrorCode::ClusterUnsupported => 1470,
        ErrorCode::ClusterOnlyOnCoordinator => 1471,
        ErrorCode::ClusterReadingPlanAgency => 1472,
        ErrorCode::ClusterCouldNotTruncateCollection => 1473,
        ErrorCode::ClusterAqlCommunication => 1474,
        ErrorCode::ArangoDocumentNotFoundOrShardingAttributesChanged => 1475,
        ErrorCode::ClusterCouldNotDetermineId => 1476,
        ErrorCode::ClusterOnlyOnDbserver => 1477,
        ErrorCode::ClusterBackendUnavailable => 1478,
        ErrorCode::ClusterUnknownCallbackEndpoint => 1479,
        ErrorCode::ClusterAgencyStructureInvalid => 1480,
        ErrorCode::ClusterAqlCollectionOutOfSync => 1481,
        ErrorCode::ClusterCouldNotCreateIndexInPlan => 1482,
        ErrorCode::ClusterCouldNotDropIndexInPlan => 1483,
        ErrorCode::ClusterChainOfDistributeshardslike => 1484,
        ErrorCode::ClusterMustNotDropCollOtherDistributeshardslike => 1485,
        ErrorCode::ClusterUnknownDistributeshardslike => 1486,
        ErrorCode::ClusterInsufficientDbservers => 1487,
        ErrorCode::ClusterCouldNotDropFollower => 1488,
        ErrorCode::ClusterShardLeaderRefusesReplication => 1489,
        ErrorCode::ClusterShardFollowerRefusesOperation => 1490,
        ErrorCode::ClusterShardLeaderResigned => 1491,
        ErrorCode::ClusterAgencyCommunicationFailed => 1492,
        ErrorCode::ClusterDistributeShardsLikeReplicationFactor => 1493,
        ErrorCode::ClusterDistributeShardsLikeNumberOfShards => 1494,
        ErrorCode::QueryKilled => 1500,
        ErrorCode::QueryParse => 1501,
        ErrorCode::QueryEmpty => 1502,
        ErrorCode::QueryScript => 1503,
        ErrorCode::QueryNumberOutOfRange => 1504,
        ErrorCode::QueryVariableNameInvalid => 1510,
        ErrorCode::QueryVariableRedeclared => 1511,
        ErrorCode::QueryVariableNameUnknown => 1512,
        ErrorCode::QueryCollectionLockFailed => 1521,
        ErrorCode::QueryTooManyCollections => 1522,
        ErrorCode::QueryDocumentAttributeRedeclared => 1530,
        ErrorCode::QueryFunctionNameUnknown => 1540,
        ErrorCode::QueryFunctionArgumentNumberMismatch => 1541,
        ErrorCode::QueryFunctionArgumentTypeMismatch => 1542,
        ErrorCode::QueryInvalidRegex => 1543,
        ErrorCode::QueryBindParametersInvalid => 1550,
        ErrorCode::QueryBindParameterMissing => 1551,
        ErrorCode::QueryBindParameterUndeclared => 1552,
        ErrorCode::QueryBindParameterType => 1553,
        ErrorCode::QueryInvalidLogicalValue => 1560,
        ErrorCode::QueryInvalidArithmeticValue => 1561,
        ErrorCode::QueryDivisionByZero => 1562,
        ErrorCode::QueryArrayExpected => 1563,
        ErrorCode::QueryFailCalled => 1569,
        ErrorCode::QueryGeoIndexMissing => 1570,
        ErrorCode::QueryFulltextIndexMissing => 1571,
        ErrorCode::QueryInvalidDateValue => 1572,
        ErrorCode::QueryMultiModify => 1573,
        ErrorCode::QueryInvalidAggregateExpression => 1574,
        ErrorCode::QueryCompileTimeOptions => 1575,
        ErrorCode::QueryExceptionOptions => 1576,
        ErrorCode::QueryCollectionUsedInExpression => 1577,
        ErrorCode::QueryDisallowedDynamicCall => 1578,
        ErrorCode::QueryAccessAfterModification => 1579,
        ErrorCode::QueryFunctionInvalidName => 1580,
        ErrorCode::QueryFunctionInvalidCode => 1581,
        ErrorCode::QueryFunctionNotFound => 1582,
        ErrorCode::QueryFunctionRuntimeError => 1583,
        ErrorCode::QueryBadJsonPlan => 1590,
        ErrorCode::QueryNotFound => 1591,
        ErrorCode::QueryInUse => 1592,
        ErrorCode::CursorNotFound => 1600,
        ErrorCode::CursorBusy => 1601,
        ErrorCode::TransactionInternal => 1650,
        ErrorCode::TransactionNested => 1651,
        ErrorCode::TransactionUnregisteredCollection => 1652,
        ErrorCode::TransactionDisallowedOperation => 1653,
        ErrorCode::TransactionAborted => 1654,
        ErrorCode::UserInvalidName => 1700,
        ErrorCode::UserInvalidPassword => 1701,
        ErrorCode::UserDuplicate => 1702,
        ErrorCode::UserNotFound => 1703,
        ErrorCode::UserChangePassword => 1704,
        ErrorCode::ServiceInvalidName => 1750,
        ErrorCode::ServiceInvalidMount => 1751,
        ErrorCode::ServiceDownloadFailed => 1752,
        ErrorCode::ServiceUploadFailed => 1753,
        ErrorCode::LdapCannotInit => 1800,
        ErrorCode::LdapCannotSetOption => 1801,
        ErrorCode::LdapCannotBind => 1802,
        ErrorCode::LdapCannotUnbind => 1803,
        ErrorCode::LdapCannotSearch => 1804,
        ErrorCode::LdapCannotStartTls => 1805,
        ErrorCode::LdapFoundNoObjects => 1806,
        ErrorCode::LdapNotOneUserFound => 1807,
        ErrorCode::LdapUserNotIdentified => 1808,
        ErrorCode::LdapInvalidMode => 1820,
        ErrorCode::TaskInvalidId => 1850,
        ErrorCode::TaskDuplicateId => 1851,
        ErrorCode::TaskNotFound => 1852,
        ErrorCode::GraphInvalidGraph => 1901,
        ErrorCode::GraphCouldNotCreateGraph => 1902,
        ErrorCode::GraphInvalidVertex => 1903,
        ErrorCode::GraphCouldNotCreateVertex => 1904,
        ErrorCode::GraphCouldNotChangeVertex => 1905,
        ErrorCode::GraphInvalidEdge => 1906,
        ErrorCode::GraphCouldNotCreateEdge => 1907,
        ErrorCode::GraphCouldNotChangeEdge => 1908,
        ErrorCode::GraphTooManyIterations => 1909,
        ErrorCode::GraphInvalidFilterResult => 1910,
        ErrorCode::GraphCollectionMultiUse => 1920,
        ErrorCode::GraphCollectionUseInMultiGraphs => 1921,
        ErrorCode::GraphCreateMissingName => 1922,
        ErrorCode::GraphCreateMalformedEdgeDefinition => 1923,
        ErrorCode::GraphNotFound => 1924,
        ErrorCode::GraphDuplicate => 1925,
        ErrorCode::GraphVertexColDoesNotExist => 1926,
        ErrorCode::GraphWrongCollectionTypeVertex => 1927,
        ErrorCode::GraphNotInOrphanCollection => 1928,
        ErrorCode::GraphCollectionUsedInEdgeDef => 1929,
        ErrorCode::GraphEdgeCollectionNotUsed => 1930,
        ErrorCode::GraphNotAnArangoCollection => 1931,
        ErrorCode::GraphNoGraphCollection => 1932,
        ErrorCode::GraphInvalidExampleArrayObjectString => 1933,
        ErrorCode::GraphInvalidExampleArrayObject => 1934,
        ErrorCode::GraphInvalidNumberOfArguments => 1935,
        ErrorCode::GraphInvalidParameter => 1936,
        ErrorCode::GraphInvalidId => 1937,
        ErrorCode::GraphCollectionUsedInOrphans => 1938,
        ErrorCode::GraphEdgeColDoesNotExist => 1939,
        ErrorCode::GraphEmpty => 1940,
        ErrorCode::SessionUnknown => 1950,
        ErrorCode::SessionExpired => 1951,
        ErrorCode::SimpleClientUnknownError => 2000,
        ErrorCode::SimpleClientCouldNotConnect => 2001,
        ErrorCode::SimpleClientCouldNotWrite => 2002,
        ErrorCode::SimpleClientCouldNotRead => 2003,
        ErrorCode::CommunicatorRequestAborted => 2100,
        ErrorCode::CommunicatorDisabled => 2101,
        ErrorCode::MalformedManifestFile => 3000,
        ErrorCode::InvalidServiceManifest => 3001,
        ErrorCode::ServiceFilesMissing => 3002,
        ErrorCode::ServiceFilesOutdated => 3003,
        ErrorCode::InvalidFoxxOptions => 3004,
        ErrorCode::InvalidMountpoint => 3007,
        ErrorCode::ServiceNotFound => 3009,
        ErrorCode::ServiceNeedsConfiguration => 3010,
        ErrorCode::ServiceMountpointConflict => 3011,
        ErrorCode::ServiceManifestNotFound => 3012,
        ErrorCode::ServiceOptionsMalformed => 3013,
        ErrorCode::ServiceSourceNotFound => 3014,
        ErrorCode::ServiceSourceError => 3015,
        ErrorCode::ServiceUnknownScript => 3016,
        ErrorCode::ModuleNotFound => 3100,
        ErrorCode::ModuleSyntaxError => 3101,
        ErrorCode::ModuleFailure => 3103,
        ErrorCode::NoSmartCollection => 4000,
        ErrorCode::NoSmartGraphAttribute => 4001,
        ErrorCode::CannotDropSmartCollection => 4002,
        ErrorCode::KeyMustBePrefixedWithSmartGraphAttribute => 4003,
        ErrorCode::IllegalSmartGraphAttribute => 4004,
        ErrorCode::AgencyInquirySyntax => 20001,
        ErrorCode::AgencyInformMustBeObject => 20011,
        ErrorCode::AgencyInformMustContainTerm => 20012,
        ErrorCode::AgencyInformMustContainId => 20013,
        ErrorCode::AgencyInformMustContainActive => 20014,
        ErrorCode::AgencyInformMustContainPool => 20015,
        ErrorCode::AgencyInformMustContainMinPing => 20016,
        ErrorCode::AgencyInformMustContainMaxPing => 20017,
        ErrorCode::AgencyInformMustContainTimeoutMult => 20018,
        ErrorCode::AgencyInquireClientIdMustBeString => 20020,
        ErrorCode::AgencyCannotRebuildDbs => 20021,
        ErrorCode::SupervisionGeneralFailure => 20501,
        ErrorCode::DispatcherIsStopping => 21001,
        ErrorCode::QueueUnknown => 21002,
        ErrorCode::QueueFull => 21003,
        ErrorCode::UnknownError => 0xffff,
    }
}

/// The short description of an error code.
pub open spec fn error_code_description(code: ErrorCode) -> Seq<char> {
    match code {
        ErrorCode::NoError => "No error has occurred."@,
        ErrorCode::Failed => "Will be raised when a general error occurred."@,
        ErrorCode::SysError => "Will be raised when operating system error occurred."@,
        ErrorCode::OutOfMemory => "Will be raised when there is a memory shortage."@,
        ErrorCode::Internal => "Will be raised when an internal error occurred."@,
        ErrorCode::IllegalNumber => "Will be raised when an illegal representation of a number was given."@,
        ErrorCode::NumericOverflow => "Will be raised when a numeric overflow occurred."@,
        ErrorCode::IllegalOption => "Will be raised when an unknown option was supplied by the user."@,
        ErrorCode::DeadPid => "Will be raised when a PID without a living process was found."@,
        ErrorCode::NotImplemented => "Will be raised when hitting an unimplemented feature."@,
        ErrorCode::BadParameter => "Will be raised when the parameter does not fulfill the requirements."@,
        ErrorCode::Forbidden => "Will be raised when you are missing permission for the operation."@,
        ErrorCode::OutOfMemoryMmap => "Will be raised when there is a memory shortage."@,
        ErrorCode::CorruptedCsv => "Will be raised when encountering a corrupt csv line."@,
        ErrorCode::FileNotFound => "Will be raised when a file is not found."@,
        ErrorCode::CannotWriteFile => "Will be raised when a file cannot be written."@,
        ErrorCode::CannotOverwriteFile => "Will be raised when an attempt is made to overwrite an existing file."@,
        ErrorCode::TypeError => "Will be raised when a type error is encountered."@,
        ErrorCode::LockTimeout => "Will be raised when there's a timeout waiting for a lock."@,
        ErrorCode::CannotCreateDirectory => "Will be raised when an attempt to create a directory fails."@,
        ErrorCode::CannotCreateTempFile => "Will be raised when an attempt to create a temporary file fails."@,
        ErrorCode::RequestCanceled => "Will be raised when a request is canceled by the user."@,
        ErrorCode::Debug => "Will be raised intentionally during debugging."@,
        ErrorCode::IpAddressInvalid => "Will be raised when the structure of an IP address is invalid."@,
        ErrorCode::FileExists => "Will be raised when a file already exists."@,
        ErrorCode::Locked => "Will be raised when a resource or an operation is locked."@,
        ErrorCode::Deadlock => "Will be raised when a deadlock is detected when accessing collections."@,
        ErrorCode::ShuttingDown => "Will be raised when a call cannot succeed because a server shutdown is already in progress."@,
        ErrorCode::OnlyEnterprise => "Will be raised when an enterprise-feature is requested from the community edition."@,
        ErrorCode::ResourceLimit => "Will be raised when the resources used by an operation exceed the configured maximum value."@,
        ErrorCode::HttpBadParameter => "Will be raised when the HTTP request does not fulfill the requirements."@,
        ErrorCode::HttpUnauthorized => "Will be raised when authorization is required but the user is not authorized."@,
        ErrorCode::HttpForbidden => "Will be raised when the operation is forbidden."@,
        ErrorCode::HttpNotFound => "Will be raised when an URI is unknown."@,
        ErrorCode::HttpMethodNotAllowed => "Will be raised when an unsupported HTTP method is used for an operation."@,
        ErrorCode::HttpNotAcceptable => "Will be raised when an unsupported HTTP content type is used for an operation, or if a request is not acceptable for a leader or follower."@,
        ErrorCode::HttpConflict => "Will be raised when a conflict with the current state of a resource is found."@,
        ErrorCode::HttpPreconditionFailed => "Will be raised when a precondition for an HTTP request is not met."@,
        ErrorCode::HttpServerError => "Will be raised when an internal server is encountered."@,
        ErrorCode::HttpServiceUnavailable => "Will be raised when a service is temporarily unavailable."@,
        ErrorCode::HttpCorruptedJson => "Will be raised when a string representation of a JSON object is corrupt."@,
        ErrorCode::HttpSuperfluousSuffices => "Will be raised when the URL contains superfluous suffices."@,
        ErrorCode::ArangoIllegalState => "Internal error that will be raised when the datafile is not in the required state."@,
        ErrorCode::ArangoDatafileSealed => "Internal error that will be raised when trying to write to a datafile."@,
        ErrorCode::ArangoReadOnly => "Internal error that will be raised when trying to write to a read-only datafile or collection."@,
        ErrorCode::ArangoDuplicateIdentifier => "Internal error that will be raised when a identifier duplicate is detected."@,
        ErrorCode::ArangoDatafileUnreadable => "Internal error that will be raised when a datafile is unreadable."@,
        ErrorCode::ArangoDatafileEmpty => "Internal error that will be raised when a datafile is empty."@,
        ErrorCode::ArangoRecovery => "Will be raised when an error occurred during WAL log file recovery."@,
        ErrorCode::ArangoDatafileStatisticsNotFound => "Will be raised when a required datafile statistics object was not found."@,
        ErrorCode::ArangoCorruptedDatafile => "Will be raised when a corruption is detected in a datafile."@,
        ErrorCode::ArangoIllegalParameterFile => "Will be raised if a parameter file is corrupted or cannot be read."@,
        ErrorCode::ArangoCorruptedCollection => "Will be raised when a collection contains one or more corrupted data files."@,
        ErrorCode::ArangoMmapFailed => "Will be raised when the system call mmap failed."@,
        ErrorCode::ArangoFilesystemFull => "Will be raised when the filesystem is full."@,
        ErrorCode::ArangoNoJournal => "Will be raised when a journal cannot be created."@,
        ErrorCode::ArangoDatafileAlreadyExists => "Will be raised when the datafile cannot be created or renamed because a file of the same name already exists."@,
        ErrorCode::ArangoDatadirLocked => "Will be raised when the database directory is locked by a different process."@,
        ErrorCode::ArangoCollectionDirectoryAlreadyExists => "Will be raised when the collection cannot be created because a directory of the same name already exists."@,
        ErrorCode::ArangoMsyncFailed => "Will be raised when the system call msync failed."@,
        ErrorCode::ArangoDatadirUnlockable => "Will be raised when the server cannot lock the database directory on startup."@,
        ErrorCode::ArangoSyncTimeout => "Will be raised when the server waited too long for a datafile to be synced to disk."@,
        ErrorCode::ArangoConflict => "Will be raised when updating or deleting a document and a conflict has been detected."@,
        ErrorCode::ArangoDatadirInvalid => "Will be raised when a non-existing database directory was specified when starting the database."@,
        ErrorCode::ArangoDocumentNotFound => "Will be raised when a document with a given identifier or handle is unknown."@,
        ErrorCode::ArangoCollectionNotFound => "Will be raised when a collection with the given identifier or name is unknown."@,
        ErrorCode::ArangoCollectionParameterMissing => "Will be raised when the collection parameter is missing."@,
        ErrorCode::ArangoDocumentHandleBad => "Will be raised when a document handle is corrupt."@,
        ErrorCode::ArangoMaximalSizeTooSmall => "Will be raised when the maximal size of the journal is too small."@,
        ErrorCode::ArangoDuplicateName => "Will be raised when a name duplicate is detected."@,
        ErrorCode::ArangoIllegalName => "Will be raised when an illegal name is detected."@,
        ErrorCode::ArangoNoIndex => "Will be raised when no suitable index for the query is known."@,
        ErrorCode::ArangoUniqueConstraintViolated => "Will be raised when there is a unique constraint violation."@,
        ErrorCode::ArangoViewNotFound => "Will be raised when a view with the given identifier or name is unknown."@,
        ErrorCode::ArangoIndexNotFound => "Will be raised when an index with a given identifier is unknown."@,
        ErrorCode::ArangoCrossCollectionRequest => "Will be raised when a cross-collection is requested."@,
        ErrorCode::ArangoIndexHandleBad => "Will be raised when a index handle is corrupt."@,
        ErrorCode::ArangoDocumentTooLarge => "Will be raised when the document cannot fit into any datafile because of it is too large."@,
        ErrorCode::ArangoCollectionNotUnloaded => "Will be raised when a collection should be unloaded, but has a different status."@,
        ErrorCode::ArangoCollectionTypeInvalid => "Will be raised when an invalid collection type is used in a request."@,
        ErrorCode::ArangoValidationFailed => "Will be raised when the validation of an attribute of a structure failed."@,
        ErrorCode::ArangoAttributeParserFailed => "Will be raised when parsing an attribute name definition failed."@,
        ErrorCode::ArangoDocumentKeyBad => "Will be raised when a document key is corrupt."@,
        ErrorCode::ArangoDocumentKeyUnexpected => "Will be raised when a user-defined document key is supplied for collections with auto key generation."@,
        ErrorCode::ArangoDatadirNotWritable => "Will be raised when the server's database directory is not writable for the current user."@,
        ErrorCode::ArangoOutOfKeys => "Will be raised when a key generator runs out of keys."@,
        ErrorCode::ArangoDocumentKeyMissing => "Will be raised when a document key is missing."@,
        ErrorCode::ArangoDocumentTypeInvalid => "Will be raised when there is an attempt to create a document with an invalid type."@,
        ErrorCode::ArangoDatabaseNotFound => "Will be raised when a non-existing database is accessed."@,
        ErrorCode::ArangoDatabaseNameInvalid => "Will be raised when an invalid database name is used."@,
        ErrorCode::ArangoUseSystemDatabase => "Will be raised when an operation is requested in a database other than the system database."@,
        ErrorCode::ArangoEndpointNotFound => "Will be raised when there is an attempt to delete a non-existing endpoint."@,
        ErrorCode::ArangoInvalidKeyGenerator => "Will be raised when an invalid key generator description is used."@,
        ErrorCode::ArangoInvalidEdgeAttribute => "will be raised when the _from or _to values of an edge are undefined or contain an invalid value."@,
        ErrorCode::ArangoIndexDocumentAttributeMissing => "Will be raised when an attempt to insert a document into an index is caused by in the document not having one or more attributes which the index is built on."@,
        ErrorCode::ArangoIndexCreationFailed => "Will be raised when an attempt to create an index has failed."@,
        ErrorCode::ArangoWriteThrottleTimeout => "Will be raised when the server is write-throttled and a write operation has waited too long for the server to process queued operations."@,
        ErrorCode::ArangoCollectionTypeMismatch => "Will be raised when a collection has a different type from what has been expected."@,
        ErrorCode::ArangoCollectionNotLoaded => "Will be raised when a collection is accessed that is not yet loaded."@,
        ErrorCode::ArangoDocumentRevBad => "Will be raised when a document revision is corrupt or is missing where needed."@,
        ErrorCode::ArangoDatafileFull => "Will be raised when the datafile reaches its limit."@,
        ErrorCode::ArangoEmptyDatadir => "Will be raised when encountering an empty server database directory."@,
        ErrorCode::ArangoTryAgain => "Will be raised when an operation should be retried."@,
        ErrorCode::ArangoBusy => "Will be raised when storage engine is busy."@,
        ErrorCode::ArangoMergeInProgress => "Will be raised when storage engine has a datafile merge in progress and cannot complete the operation."@,
        ErrorCode::ArangoIoError => "Will be raised when storage engine encounters an I/O error."@,
        ErrorCode::ReplicationNoResponse => "Will be raised when the replication applier does not receive any or an incomplete response from the master."@,
        ErrorCode::ReplicationInvalidResponse => "Will be raised when the replication applier receives an invalid response from the master."@,
        ErrorCode::ReplicationMasterError => "Will be raised when the replication applier receives a server error from the master."@,
        ErrorCode::ReplicationMasterIncompatible => "Will be raised when the replication applier connects to a master that has an incompatible version."@,
        ErrorCode::ReplicationMasterChange => "Will be raised when the replication applier connects to a different master than before."@,
        ErrorCode::ReplicationLoop => "Will be raised when the replication applier is asked to connect to itself for replication."@,
        ErrorCode::ReplicationUnexpectedMarker => "Will be raised when an unexpected marker is found in the replication log stream."@,
        ErrorCode::ReplicationInvalidApplierState => "Will be raised when an invalid replication applier state file is found."@,
        ErrorCode::ReplicationUnexpectedTransaction => "Will be raised when an unexpected transaction id is found."@,
        ErrorCode::ReplicationInvalidApplierConfiguration => "Will be raised when the configuration for the replication applier is invalid."@,
        ErrorCode::ReplicationRunning => "Will be raised when there is an attempt to perform an operation while the replication applier is running."@,
        ErrorCode::ReplicationApplierStopped => "Special error code used to indicate the replication applier was stopped by a user."@,
        ErrorCode::ReplicationNoStartTick => "Will be raised when the replication applier is started without a known start tick value."@,
        ErrorCode::ReplicationStartTickNotPresent => "Will be raised when the replication applier fetches data using a start tick, but that start tick is not present on the logger server anymore."@,
        ErrorCode::ReplicationWrongChecksumFormat => "Will be raised when the format of the checksum is wrong"@,
        ErrorCode::ReplicationWrongChecksum => "Will be raised when a new born follower submits a wrong checksum"@,
        ErrorCode::ClusterNoAgency => "Will be raised when none of the agency servers can be connected to."@,
        ErrorCode::ClusterNoCoordinatorHeader => "Will be raised when a DB server in a cluster receives a HTTP request without a coordinator header."@,
        ErrorCode::ClusterCouldNotLockPlan => "Will be raised when a coordinator in a cluster cannot lock the Plan hierarchy in the agency."@,
        ErrorCode::ClusterCollectionIdExists => "Will be raised when a coordinator in a cluster tries to create a collection and the collection ID already exists."@,
        ErrorCode::ClusterCouldNotCreateCollectionInPlan => "Will be raised when a coordinator in a cluster cannot create an entry for a new collection in the Plan hierarchy in the agency."@,
        ErrorCode::ClusterCouldNotReadCurrentVersion => "Will be raised when a coordinator in a cluster cannot read the Version entry in the Current hierarchy in the agency."@,
        ErrorCode::ClusterCouldNotCreateCollection => "Will be raised when a coordinator in a cluster notices that some DBServers report problems when creating shards for a new collection."@,
        ErrorCode::ClusterTimeout => "Will be raised when a coordinator in a cluster runs into a timeout for some cluster wide operation."@,
        ErrorCode::ClusterCouldNotRemoveCollectionInPlan => "Will be raised when a coordinator in a cluster cannot remove an entry for a collection in the Plan hierarchy in the agency."@,
        ErrorCode::ClusterCouldNotRemoveCollectionInCurrent => "Will be raised when a coordinator in a cluster cannot remove an entry for a collection in the Current hierarchy in the agency."@,
        ErrorCode::ClusterCouldNotCreateDatabaseInPlan => "Will be raised when a coordinator in a cluster cannot create an entry for a new database in the Plan hierarchy in the agency."@,
        ErrorCode::ClusterCouldNotCreateDatabase => "Will be raised when a coordinator in a cluster notices that some DBServers report problems when creating databases for a new cluster wide database."@,
        ErrorCode::ClusterCouldNotRemoveDatabaseInPlan => "Will be raised when a coordinator in a cluster cannot remove an entry for a database in the Plan hierarchy in the agency."@,
        ErrorCode::ClusterCouldNotRemoveDatabaseInCurrent => "Will be raised when a coordinator in a cluster cannot remove an entry for a database in the Current hierarchy in the agency."@,
        ErrorCode::ClusterShardGone => "Will be raised when a coordinator in a cluster cannot determine the shard that is responsible for a given document."@,
        ErrorCode::ClusterConnectionLost => "Will be raised when a coordinator in a cluster loses an HTTP connection to a DBserver in the cluster whilst transferring data."@,
        ErrorCode::ClusterMustNotSpecifyKey => "Will be raised when a coordinator in a cluster finds that the _key attribute was specified in a sharded collection the uses not only _key as sharding attribute."@,
        ErrorCode::ClusterGotContradictingAnswers => "Will be raised if a coordinator in a cluster gets conflicting results from different shards, which should never happen."@,
        ErrorCode::ClusterNotAllShardingAttributesGiven => "Will be raised if a coordinator tries to find out which shard is responsible for a partial document, but cannot do this because not all sharding attributes are specified."@,
        ErrorCode::ClusterMustNotChangeShardingAttributes => "Will be raised if there is an attempt to update the value of a shard attribute."@,
        ErrorCode::ClusterUnsupported => "Will be raised when there is an attempt to carry out an operation that is not supported in the context of a sharded collection."@,
        ErrorCode::ClusterOnlyOnCoordinator => "Will be raised if there is an attempt to run a coordinator-only operation on a different type of node."@,
        ErrorCode::ClusterReadingPlanAgency => "Will be raised if a coordinator or DBserver cannot read the Plan in the agency."@,
        ErrorCode::ClusterCouldNotTruncateCollection => "Will be raised if a coordinator cannot truncate all shards of a cluster collection."@,
        ErrorCode::ClusterAqlCommunication => "Will be raised if the internal communication of the cluster for AQL produces an error."@,
        ErrorCode::ArangoDocumentNotFoundOrShardingAttributesChanged => "Will be raised when a document with a given identifier or handle is unknown, or if the sharding attributes have been changed in a REPLACE operation in the cluster."@,
        ErrorCode::ClusterCouldNotDetermineId => "Will be raised if a cluster server at startup could not determine its own ID from the local info provided."@,
        ErrorCode::ClusterOnlyOnDbserver => "Will be raised if there is an attempt to run a DBserver-only operation on a different type of node."@,
        ErrorCode::ClusterBackendUnavailable => "Will be raised if a required db server can't be reached."@,
        ErrorCode::ClusterUnknownCallbackEndpoint => "An endpoint couldn't be found"@,
        ErrorCode::ClusterAgencyStructureInvalid => "The structure in the agency is invalid"@,
        ErrorCode::ClusterAqlCollectionOutOfSync => "Will be raised if a collection needed during query execution is out of sync. This currently can only happen when using satellite collections"@,
        ErrorCode::ClusterCouldNotCreateIndexInPlan => "Will be raised when a coordinator in a cluster cannot create an entry for a new index in the Plan hierarchy in the agency."@,
        ErrorCode::ClusterCouldNotDropIndexInPlan => "Will be raised when a coordinator in a cluster cannot remove an index from the Plan hierarchy in the agency."@,
        ErrorCode::ClusterChainOfDistributeshardslike => "Will be raised if one tries to create a collection with a distributeShardsLike attribute which points to another collection that also has one."@,
        ErrorCode::ClusterMustNotDropCollOtherDistributeshardslike => "Will be raised if one tries to drop a collection to which another collection points with its distributeShardsLike attribute."@,
        ErrorCode::ClusterUnknownDistributeshardslike => "Will be raised if one tries to create a collection which points to an unknown collection in its distributeShardsLike attribute."@,
        ErrorCode::ClusterInsufficientDbservers => "Will be raised if one tries to create a collection with a replicationFactor greater than the available number of DBServers."@,
        ErrorCode::ClusterCouldNotDropFollower => "Will be raised if a follower that ought to be dropped could not be dropped in the agency (under Current)."@,
        ErrorCode::ClusterShardLeaderRefusesReplication => "Will be raised if a replication operation is refused by a shard leader."@,
        ErrorCode::ClusterShardFollowerRefusesOperation => "Will be raised if a non-replication operation is refused by a shard follower."@,
        ErrorCode::ClusterShardLeaderResigned => "Will be raised if a non-replication operation is refused by a former shard leader that has found out that it is no longer the leader."@,
        ErrorCode::ClusterAgencyCommunicationFailed => "Will be raised if after various retries an agency operation could not be performed successfully."@,
        ErrorCode::ClusterDistributeShardsLikeReplicationFactor => "Will be raised if intended replication factor does not match that of the prototype shard given in ditributeShardsLike parameter."@,
        ErrorCode::ClusterDistributeShardsLikeNumberOfShards => "Will be raised if intended number of shards does not match that of the prototype shard given in ditributeShardsLike parameter."@,
        ErrorCode::QueryKilled => "Will be raised when a running query is killed by an explicit admin command."@,
        ErrorCode::QueryParse => "Will be raised when query is parsed and is found to be syntactically invalid."@,
        ErrorCode::QueryEmpty => "Will be raised when an empty query is specified."@,
        ErrorCode::QueryScript => "Will be raised when a runtime error is caused by the query."@,
        ErrorCode::QueryNumberOutOfRange => "Will be raised when a number is outside the expected range."@,
        ErrorCode::QueryVariableNameInvalid => "Will be raised when an invalid variable name is used."@,
        ErrorCode::QueryVariableRedeclared => "Will be raised when a variable gets re-assigned in a query."@,
        ErrorCode::QueryVariableNameUnknown => "Will be raised when an unknown variable is used or the variable is undefined the context it is used."@,
        ErrorCode::QueryCollectionLockFailed => "Will be raised when a read lock on the collection cannot be acquired."@,
        ErrorCode::QueryTooManyCollections => "Will be raised when the number of collections in a query is beyond the allowed value."@,
        ErrorCode::QueryDocumentAttributeRedeclared => "Will be raised when a document attribute is re-assigned."@,
        ErrorCode::QueryFunctionNameUnknown => "Will be raised when an undefined function is called."@,
        ErrorCode::QueryFunctionArgumentNumberMismatch => "Will be raised when the number of arguments used in a function call does not match the expected number of arguments for the function."@,
        ErrorCode::QueryFunctionArgumentTypeMismatch => "Will be raised when the type of an argument used in a function call does not match the expected argument type."@,
        ErrorCode::QueryInvalidRegex => "Will be raised when an invalid regex argument value is used in a call to a function that expects a regex."@,
        ErrorCode::QueryBindParametersInvalid => "Will be raised when the structure of bind parameters passed has an unexpected format."@,
        ErrorCode::QueryBindParameterMissing => "Will be raised when a bind parameter was declared in the query but the query is being executed with no value for that parameter."@,
        ErrorCode::QueryBindParameterUndeclared => "Will be raised when a value gets specified for an undeclared bind parameter."@,
        ErrorCode::QueryBindParameterType => "Will be raised when a bind parameter has an invalid value or type."@,
        ErrorCode::QueryInvalidLogicalValue => "Will be raised when a non-boolean value is used in a logical operation."@,
        ErrorCode::QueryInvalidArithmeticValue => "Will be raised when a non-numeric value is used in an arithmetic operation."@,
        ErrorCode::QueryDivisionByZero => "Will be raised when there is an attempt to divide by zero."@,
        ErrorCode::QueryArrayExpected => "Will be raised when a non-array operand is used for an operation that expects an array argument operand."@,
        ErrorCode::QueryFailCalled => "Will be raised when the function FAIL() is called from inside a query."@,
        ErrorCode::QueryGeoIndexMissing => "Will be raised when a geo restriction was specified but no suitable geo index is found to resolve it."@,
        ErrorCode::QueryFulltextIndexMissing => "Will be raised when a fulltext query is performed on a collection without a suitable fulltext index."@,
        ErrorCode::QueryInvalidDateValue => "Will be raised when a value cannot be converted to a date."@,
        ErrorCode::QueryMultiModify => "Will be raised when an AQL query contains more than one data-modifying operation."@,
        ErrorCode::QueryInvalidAggregateExpression => "Will be raised when an AQL query contains an invalid aggregate expression."@,
        ErrorCode::QueryCompileTimeOptions => "Will be raised when an AQL data-modification query contains options that cannot be figured out at query compile time."@,
        ErrorCode::QueryExceptionOptions => "Will be raised when an AQL data-modification query contains an invalid options specification."@,
        ErrorCode::QueryCollectionUsedInExpression => "Will be raised when a collection is used as an operand in an AQL expression."@,
        ErrorCode::QueryDisallowedDynamicCall => "Will be raised when a dynamic function call is made to a function that cannot be called dynamically."@,
        ErrorCode::QueryAccessAfterModification => "Will be raised when collection data are accessed after a data-modification operation."@,
        ErrorCode::QueryFunctionInvalidName => "Will be raised when a user function with an invalid name is registered."@,
        ErrorCode::QueryFunctionInvalidCode => "Will be raised when a user function is registered with invalid code."@,
        ErrorCode::QueryFunctionNotFound => "Will be raised when a user function is accessed but not found."@,
        ErrorCode::QueryFunctionRuntimeError => "Will be raised when a user function throws a runtime exception."@,
        ErrorCode::QueryBadJsonPlan => "Will be raised when an HTTP API for a query got an invalid JSON object."@,
        ErrorCode::QueryNotFound => "Will be raised when an Id of a query is not found by the HTTP API."@,
        ErrorCode::QueryInUse => "Will be raised when an Id of a query is found by the HTTP API but the query is in use."@,
        ErrorCode::CursorNotFound => "Will be raised when a cursor is requested via its id but a cursor with that id cannot be found."@,
        ErrorCode::CursorBusy => "Will be raised when a cursor is requested via its id but a concurrent request is still using the cursor."@,
        ErrorCode::TransactionInternal => "Will be raised when a wrong usage of transactions is detected. this is an internal error and indicates a bug in ArangoDB."@,
        ErrorCode::TransactionNested => "Will be raised when transactions are nested."@,
        ErrorCode::TransactionUnregisteredCollection => "Will be raised when a collection is used in the middle of a transaction but was not registered at transaction start."@,
        ErrorCode::TransactionDisallowedOperation => "Will be raised when a disallowed operation is carried out in a transaction."@,
        ErrorCode::TransactionAborted => "Will be raised when a transaction was aborted."@,
        ErrorCode::UserInvalidName => "Will be raised when an invalid user name is used."@,
        ErrorCode::UserInvalidPassword => "Will be raised when an invalid password is used."@,
        ErrorCode::UserDuplicate => "Will be raised when a user name already exists."@,
        ErrorCode::UserNotFound => "Will be raised when a user name is updated that does not exist."@,
        ErrorCode::UserChangePassword => "Will be raised when the user must change his password."@,
        ErrorCode::ServiceInvalidName => "Will be raised when an invalid service name is specified."@,
        ErrorCode::ServiceInvalidMount => "Will be raised when an invalid mount is specified."@,
        ErrorCode::ServiceDownloadFailed => "Will be raised when a service download from the central repository failed."@,
        ErrorCode::ServiceUploadFailed => "Will be raised when a service upload from the client to the ArangoDB server failed."@,
        ErrorCode::LdapCannotInit => "can not init a LDAP connection"@,
        ErrorCode::LdapCannotSetOption => "can not set a LDAP option"@,
        ErrorCode::LdapCannotBind => "can not bind to a LDAP server"@,
        ErrorCode::LdapCannotUnbind => "can not unbind from a LDAP server"@,
        ErrorCode::LdapCannotSearch => "can not search the LDAP server"@,
        ErrorCode::LdapCannotStartTls => "can not star a TLS LDAP session"@,
        ErrorCode::LdapFoundNoObjects => "LDAP didn't found any objects with the specified search query"@,
        ErrorCode::LdapNotOneUserFound => "LDAP found zero ore more than one user"@,
        ErrorCode::LdapUserNotIdentified => "LDAP found a user, but its not the desired one"@,
        ErrorCode::LdapInvalidMode => "cant distinguish a valid mode for provided ldap configuration"@,
        ErrorCode::TaskInvalidId => "Will be raised when a task is created with an invalid id."@,
        ErrorCode::TaskDuplicateId => "Will be raised when a task id is created with a duplicate id."@,
        ErrorCode::TaskNotFound => "Will be raised when a task with the specified id could not be found."@,
        ErrorCode::GraphInvalidGraph => "Will be raised when an invalid name is passed to the server."@,
        ErrorCode::GraphCouldNotCreateGraph => "Will be raised when an invalid name, vertices or edges is passed to the server."@,
        ErrorCode::GraphInvalidVertex => "Will be raised when an invalid vertex id is passed to the server."@,
        ErrorCode::GraphCouldNotCreateVertex => "Will be raised when the vertex could not be created."@,
        ErrorCode::GraphCouldNotChangeVertex => "Will be raised when the vertex could not be changed."@,
        ErrorCode::GraphInvalidEdge => "Will be raised when an invalid edge id is passed to the server."@,
        ErrorCode::GraphCouldNotCreateEdge => "Will be raised when the edge could not be created."@,
        ErrorCode::GraphCouldNotChangeEdge => "Will be raised when the edge could not be changed."@,
        ErrorCode::GraphTooManyIterations => "Will be raised when too many iterations are done in a graph traversal."@,
        ErrorCode::GraphInvalidFilterResult => "Will be raised when an invalid filter result is returned in a graph traversal."@,
        ErrorCode::GraphCollectionMultiUse => "An edge collection may only be used once in one edge definition of a graph."@,
        ErrorCode::GraphCollectionUseInMultiGraphs => "Is already used by another graph in a different edge definition."@,
        ErrorCode::GraphCreateMissingName => "A graph name is required to create a graph."@,
        ErrorCode::GraphCreateMalformedEdgeDefinition => "The edge definition is malformed. It has to be an array of objects."@,
        ErrorCode::GraphNotFound => "A graph with this name could not be found."@,
        ErrorCode::GraphDuplicate => "A graph with this name already exists."@,
        ErrorCode::GraphVertexColDoesNotExist => "The specified vertex collection does not exist or is not part of the graph."@,
        ErrorCode::GraphWrongCollectionTypeVertex => "The collection is not a vertex collection."@,
        ErrorCode::GraphNotInOrphanCollection => "Vertex collection not in orphan collection of the graph."@,
        ErrorCode::GraphCollectionUsedInEdgeDef => "The collection is already used in an edge definition of the graph."@,
        ErrorCode::GraphEdgeCollectionNotUsed => "The edge collection is not used in any edge definition of the graph."@,
        ErrorCode::GraphNotAnArangoCollection => "The collection is not an ArangoCollection."@,
        ErrorCode::GraphNoGraphCollection => "Collection _graphs does not exist."@,
        ErrorCode::GraphInvalidExampleArrayObjectString => "Invalid example type. Has to be String, Array or Object."@,
        ErrorCode::GraphInvalidExampleArrayObject => "Invalid example type. Has to be Array or Object."@,
        ErrorCode::GraphInvalidNumberOfArguments => "Invalid number of arguments. Expected: "@,
        ErrorCode::GraphInvalidParameter => "Invalid parameter type."@,
        ErrorCode::GraphInvalidId => "Invalid id"@,
        ErrorCode::GraphCollectionUsedInOrphans => "The collection is already used in the orphans of the graph."@,
        ErrorCode::GraphEdgeColDoesNotExist => "The specified edge collection does not exist or is not part of the graph."@,
        ErrorCode::GraphEmpty => "The requested graph has no edge collections."@,
        ErrorCode::SessionUnknown => "Will be raised when an invalid/unknown session id is passed to the server."@,
        ErrorCode::SessionExpired => "Will be raised when a session is expired."@,
        ErrorCode::SimpleClientUnknownError => "This error should not happen."@,
        ErrorCode::SimpleClientCouldNotConnect => "Will be raised when the client could not connect to the server."@,
        ErrorCode::SimpleClientCouldNotWrite => "Will be raised when the client could not write data."@,
        ErrorCode::SimpleClientCouldNotRead => "Will be raised when the client could not read data."@,
        ErrorCode::CommunicatorRequestAborted => "Request was aborted."@,
        ErrorCode::CommunicatorDisabled => "Communication was disabled."@,
        ErrorCode::MalformedManifestFile => "The service manifest file is not well-formed JSON."@,
        ErrorCode::InvalidServiceManifest => "The service manifest contains invalid values."@,
        ErrorCode::ServiceFilesMissing => "The service folder or bundle does not exist on this server."@,
        ErrorCode::ServiceFilesOutdated => "The local service bundle does not match the checksum in the database."@,
        ErrorCode::InvalidFoxxOptions => "The service options contain invalid values."@,
        ErrorCode::InvalidMountpoint => "The service mountpath contains invalid characters."@,
        ErrorCode::ServiceNotFound => "No service found at the given mountpath."@,
        ErrorCode::ServiceNeedsConfiguration => "The service is missing configuration or dependencies."@,
        ErrorCode::ServiceMountpointConflict => "A service already exists at the given mountpath."@,
        ErrorCode::ServiceManifestNotFound => "The service directory does not contain a manifest file."@,
        ErrorCode::ServiceOptionsMalformed => "The service options are not well-formed JSON."@,
        ErrorCode::ServiceSourceNotFound => "The source path does not match a file or directory."@,
        ErrorCode::ServiceSourceError => "The source path could not be resolved."@,
        ErrorCode::ServiceUnknownScript => "The service does not have a script with this name."@,
        ErrorCode::ModuleNotFound => "The module path could not be resolved."@,
        ErrorCode::ModuleSyntaxError => "The module could not be parsed because of a syntax error."@,
        ErrorCode::ModuleFailure => "Failed to invoke the module in its context."@,
        ErrorCode::NoSmartCollection => "The requested collection needs to be smart, but it ain't"@,
        ErrorCode::NoSmartGraphAttribute => "The given document does not have the smart graph attribute set."@,
        ErrorCode::CannotDropSmartCollection => "This smart collection cannot be dropped, it dictates sharding in the graph."@,
        ErrorCode::KeyMustBePrefixedWithSmartGraphAttribute => "In a smart vertex collection _key must be prefixed with the value of the smart graph attribute."@,
        ErrorCode::IllegalSmartGraphAttribute => "The given smartGraph attribute is illegal and connot be used for sharding. All system attributes are forbidden."@,
        ErrorCode::AgencyInquirySyntax => "Inquiry handles a list of string clientIds: [,...]."@,
        ErrorCode::AgencyInformMustBeObject => "The inform message in the agency must be an object."@,
        ErrorCode::AgencyInformMustContainTerm => "The inform message in the agency must contain a uint parameter 'term'."@,
        ErrorCode::AgencyInformMustContainId => "The inform message in the agency must contain a string parameter 'id'."@,
        ErrorCode::AgencyInformMustContainActive => "The inform message in the agency must contain an array 'active'."@,
        ErrorCode::AgencyInformMustContainPool => "The inform message in the agency must contain an object 'pool'."@,
        ErrorCode::AgencyInformMustContainMinPing => "The inform message in the agency must contain an object 'min ping'."@,
        ErrorCode::AgencyInformMustContainMaxPing => "The inform message in the agency must contain an object 'max ping'."@,
        ErrorCode::AgencyInformMustContainTimeoutMult => "The inform message in the agency must contain an object 'timeoutMult'."@,
        ErrorCode::AgencyInquireClientIdMustBeString => "Inquiry by clientId failed"@,
        ErrorCode::AgencyCannotRebuildDbs => "Will be raised if the readDB or the spearHead cannot be rebuilt from the replicated log."@,
        ErrorCode::SupervisionGeneralFailure => "General supervision failure."@,
        ErrorCode::DispatcherIsStopping => "Will be returned if a shutdown is in progress."@,
        ErrorCode::QueueUnknown => "Will be returned if a queue with this name does not exist."@,
        ErrorCode::QueueFull => "Will be returned if a queue with this name is full."@,
        ErrorCode::UnknownError => "An error occurred that is not known by the driver."@,
    }
}

impl ErrorCode {
    /// The error code that is assigned to `value`, or `UnknownError`.
    pub fn from_u16(value: u16) -> (r: Self)
        ensures
            r == error_code_of(value),
    {
        match value {
            0 => ErrorCode::NoError,
            1 => ErrorCode::Failed,
            2 => ErrorCode::SysError,
            3 => ErrorCode::OutOfMemory,
            4 => ErrorCode::Internal,
            5 => ErrorCode::IllegalNumber,
            6 => ErrorCode::NumericOverflow,
            7 => ErrorCode::IllegalOption,
            8 => ErrorCode::DeadPid,
            9 => ErrorCode::NotImplemented,
            10 => ErrorCode::BadParameter,
            11 => ErrorCode::Forbidden,
            12 => ErrorCode::OutOfMemoryMmap,
            13 => ErrorCode::CorruptedCsv,
            14 => ErrorCode::FileNotFound,
            15 => ErrorCode::CannotWriteFile,
            16 => ErrorCode::CannotOverwriteFile,
            17 => ErrorCode::TypeError,
            18 => ErrorCode::LockTimeout,
            19 => ErrorCode::CannotCreateDirectory,
            20 => ErrorCode::CannotCreateTempFile,
            21 => ErrorCode::RequestCanceled,
            22 => ErrorCode::Debug,
            25 => ErrorCode::IpAddressInvalid,
            27 => ErrorCode::FileExists,
            28 => ErrorCode::Locked,
            29 => ErrorCode::Deadlock,
            30 => ErrorCode::ShuttingDown,
            31 => ErrorCode::OnlyEnterprise,
            32 => ErrorCode::ResourceLimit,
            400 => ErrorCode::HttpBadParameter,
            401 => ErrorCode::HttpUnauthorized,
            403 => ErrorCode::HttpForbidden,
            404 => ErrorCode::HttpNotFound,
            405 => ErrorCode::HttpMethodNotAllowed,
            406 => ErrorCode::HttpNotAcceptable,
            409 => ErrorCode::HttpConflict,
            412 => ErrorCode::HttpPreconditionFailed,
            500 => ErrorCode::HttpServerError,
            503 => ErrorCode::HttpServiceUnavailable,
            600 => ErrorCode::HttpCorruptedJson,
            601 => ErrorCode::HttpSuperfluousSuffices,
            1000 => ErrorCode::ArangoIllegalState,
            1002 => ErrorCode::ArangoDatafileSealed,
            1004 => ErrorCode::ArangoReadOnly,
            1005 => ErrorCode::ArangoDuplicateIdentifier,
            1006 => ErrorCode::ArangoDatafileUnreadable,
            1007 => ErrorCode::ArangoDatafileEmpty,
            1008 => ErrorCode::ArangoRecovery,
            1009 => ErrorCode::ArangoDatafileStatisticsNotFound,
            1100 => ErrorCode::ArangoCorruptedDatafile,
            1101 => ErrorCode::ArangoIllegalParameterFile,
            1102 => ErrorCode::ArangoCorruptedCollection,
            1103 => ErrorCode::ArangoMmapFailed,
            1104 => ErrorCode::ArangoFilesystemFull,
            1105 => ErrorCode::ArangoNoJournal,
            1106 => ErrorCode::ArangoDatafileAlreadyExists,
            1107 => ErrorCode::ArangoDatadirLocked,
            1108 => ErrorCode::ArangoCollectionDirectoryAlreadyExists,
            1109 => ErrorCode::ArangoMsyncFailed,
            1110 => ErrorCode::ArangoDatadirUnlockable,
            1111 => ErrorCode::ArangoSyncTimeout,
            1200 => ErrorCode::ArangoConflict,
            1201 => ErrorCode::ArangoDatadirInvalid,
            1202 => ErrorCode::ArangoDocumentNotFound,
            1203 => ErrorCode::ArangoCollectionNotFound,
            1204 => ErrorCode::ArangoCollectionParameterMissing,
            1205 => ErrorCode::ArangoDocumentHandleBad,
            1206 => ErrorCode::ArangoMaximalSizeTooSmall,
            1207 => ErrorCode::ArangoDuplicateName,
            1208 => ErrorCode::ArangoIllegalName,
            1209 => ErrorCode::ArangoNoIndex,
            1210 => ErrorCode::ArangoUniqueConstraintViolated,
            1211 => ErrorCode::ArangoViewNotFound,
            1212 => ErrorCode::ArangoIndexNotFound,
            1213 => ErrorCode::ArangoCrossCollectionRequest,
            1214 => ErrorCode::ArangoIndexHandleBad,
            1216 => ErrorCode::ArangoDocumentTooLarge,
            1217 => ErrorCode::ArangoCollectionNotUnloaded,
            1218 => ErrorCode::ArangoCollectionTypeInvalid,
            1219 => ErrorCode::ArangoValidationFailed,
            1220 => ErrorCode::ArangoAttributeParserFailed,
            1221 => ErrorCode::ArangoDocumentKeyBad,
            1222 => ErrorCode::ArangoDocumentKeyUnexpected,
            1224 => ErrorCode::ArangoDatadirNotWritable,
            1225 => ErrorCode::ArangoOutOfKeys,
            1226 => ErrorCode::ArangoDocumentKeyMissing,
            1227 => ErrorCode::ArangoDocumentTypeInvalid,
            1228 => ErrorCode::ArangoDatabaseNotFound,
            1229 => ErrorCode::ArangoDatabaseNameInvalid,
            1230 => ErrorCode::ArangoUseSystemDatabase,
            1231 => ErrorCode::ArangoEndpointNotFound,
            1232 => ErrorCode::ArangoInvalidKeyGenerator,
            1233 => ErrorCode::ArangoInvalidEdgeAttribute,
            1234 => ErrorCode::ArangoIndexDocumentAttributeMissing,
            1235 => ErrorCode::ArangoIndexCreationFailed,
            1236 => ErrorCode::ArangoWriteThrottleTimeout,
            1237 => ErrorCode::ArangoCollectionTypeMismatch,
            1238 => ErrorCode::ArangoCollectionNotLoaded,
            1239 => ErrorCode::ArangoDocumentRevBad,
            1300 => ErrorCode::ArangoDatafileFull,
            1301 => ErrorCode::ArangoEmptyDatadir,
            1302 => ErrorCode::ArangoTryAgain,
            1303 => ErrorCode::ArangoBusy,
            1304 => ErrorCode::ArangoMergeInProgress,
            1305 => ErrorCode::ArangoIoError,
            1400 => ErrorCode::ReplicationNoResponse,
            1401 => ErrorCode::ReplicationInvalidResponse,
            1402 => ErrorCode::ReplicationMasterError,
            1403 => ErrorCode::ReplicationMasterIncompatible,
            1404 => ErrorCode::ReplicationMasterChange,
            1405 => ErrorCode::ReplicationLoop,
            1406 => ErrorCode::ReplicationUnexpectedMarker,
            1407 => ErrorCode::ReplicationInvalidApplierState,
            1408 => ErrorCode::ReplicationUnexpectedTransaction,
            1410 => ErrorCode::ReplicationInvalidApplierConfiguration,
            1411 => ErrorCode::ReplicationRunning,
            1412 => ErrorCode::ReplicationApplierStopped,
            1413 => ErrorCode::ReplicationNoStartTick,
            1414 => ErrorCode::ReplicationStartTickNotPresent,
            1415 => ErrorCode::ReplicationWrongChecksumFormat,
            1416 => ErrorCode::ReplicationWrongChecksum,
            1450 => ErrorCode::ClusterNoAgency,
            1451 => ErrorCode::ClusterNoCoordinatorHeader,
            1452 => ErrorCode::ClusterCouldNotLockPlan,
            1453 => ErrorCode::ClusterCollectionIdExists,
            1454 => ErrorCode::ClusterCouldNotCreateCollectionInPlan,
            1455 => ErrorCode::ClusterCouldNotReadCurrentVersion,
            1456 => ErrorCode::ClusterCouldNotCreateCollection,
            1457 => ErrorCode::ClusterTimeout,
            1458 => ErrorCode::ClusterCouldNotRemoveCollectionInPlan,
            1459 => ErrorCode::ClusterCouldNotRemoveCollectionInCurrent,
            1460 => ErrorCode::ClusterCouldNotCreateDatabaseInPlan,
            1461 => ErrorCode::ClusterCouldNotCreateDatabase,
            1462 => ErrorCode::ClusterCouldNotRemoveDatabaseInPlan,
            1463 => ErrorCode::ClusterCouldNotRemoveDatabaseInCurrent,
            1464 => ErrorCode::ClusterShardGone,
            1465 => ErrorCode::ClusterConnectionLost,
            1466 => ErrorCode::ClusterMustNotSpecifyKey,
            1467 => ErrorCode::ClusterGotContradictingAnswers,
            1468 => ErrorCode::ClusterNotAllShardingAttributesGiven,
            1469 => ErrorCode::ClusterMustNotChangeShardingAttributes,
            1470 => ErrorCode::ClusterUnsupported,
            1471 => ErrorCode::ClusterOnlyOnCoordinator,
            1472 => ErrorCode::ClusterReadingPlanAgency,
            1473 => ErrorCode::ClusterCouldNotTruncateCollection,
            1474 => ErrorCode::ClusterAqlCommunication,
            1475 => ErrorCode::ArangoDocumentNotFoundOrShardingAttributesChanged,
            1476 => ErrorCode::ClusterCouldNotDetermineId,
            1477 => ErrorCode::ClusterOnlyOnDbserver,
            1478 => ErrorCode::ClusterBackendUnavailable,
            1479 => ErrorCode::ClusterUnknownCallbackEndpoint,
            1480 => ErrorCode::ClusterAgencyStructureInvalid,
            1481 => ErrorCode::ClusterAqlCollectionOutOfSync,
            1482 => ErrorCode::ClusterCouldNotCreateIndexInPlan,
            1483 => ErrorCode::ClusterCouldNotDropIndexInPlan,
            1484 => ErrorCode::ClusterChainOfDistributeshardslike,
            1485 => ErrorCode::ClusterMustNotDropCollOtherDistributeshardslike,
            1486 => ErrorCode::ClusterUnknownDistributeshardslike,
            1487 => ErrorCode::ClusterInsufficientDbservers,
            1488 => ErrorCode::ClusterCouldNotDropFollower,
            1489 => ErrorCode::ClusterShardLeaderRefusesReplication,
            1490 => ErrorCode::ClusterShardFollowerRefusesOperation,
            1491 => ErrorCode::ClusterShardLeaderResigned,
            1492 => ErrorCode::ClusterAgencyCommunicationFailed,
            1493 => ErrorCode::ClusterDistributeShardsLikeReplicationFactor,
            1494 => ErrorCode::ClusterDistributeShardsLikeNumberOfShards,
            1500 => ErrorCode::QueryKilled,
            1501 => ErrorCode::QueryParse,
            1502 => ErrorCode::QueryEmpty,
            1503 => ErrorCode::QueryScript,
            1504 => ErrorCode::QueryNumberOutOfRange,
            1510 => ErrorCode::QueryVariableNameInvalid,
            1511 => ErrorCode::QueryVariableRedeclared,
            1512 => ErrorCode::QueryVariableNameUnknown,
            1521 => ErrorCode::QueryCollectionLockFailed,
            1522 => ErrorCode::QueryTooManyCollections,
            1530 => ErrorCode::QueryDocumentAttributeRedeclared,
            1540 => ErrorCode::QueryFunctionNameUnknown,
            1541 => ErrorCode::QueryFunctionArgumentNumberMismatch,
            1542 => ErrorCode::QueryFunctionArgumentTypeMismatch,
            1543 => ErrorCode::QueryInvalidRegex,
            1550 => ErrorCode::QueryBindParametersInvalid,
            1551 => ErrorCode::QueryBindParameterMissing,
            1552 => ErrorCode::QueryBindParameterUndeclared,
            1553 => ErrorCode::QueryBindParameterType,
            1560 => ErrorCode::QueryInvalidLogicalValue,
            1561 => ErrorCode::QueryInvalidArithmeticValue,
            1562 => ErrorCode::QueryDivisionByZero,
            1563 => ErrorCode::QueryArrayExpected,
            1569 => ErrorCode::QueryFailCalled,
            1570 => ErrorCode::QueryGeoIndexMissing,
            1571 => ErrorCode::QueryFulltextIndexMissing,
            1572 => ErrorCode::QueryInvalidDateValue,
            1573 => ErrorCode::QueryMultiModify,
            1574 => ErrorCode::QueryInvalidAggregateExpression,
            1575 => ErrorCode::QueryCompileTimeOptions,
            1576 => ErrorCode::QueryExceptionOptions,
            1577 => ErrorCode::QueryCollectionUsedInExpression,
            1578 => ErrorCode::QueryDisallowedDynamicCall,
            1579 => ErrorCode::QueryAccessAfterModification,
            1580 => ErrorCode::QueryFunctionInvalidName,
            1581 => ErrorCode::QueryFunctionInvalidCode,
            1582 => ErrorCode::QueryFunctionNotFound,
            1583 => ErrorCode::QueryFunctionRuntimeError,
            1590 => ErrorCode::QueryBadJsonPlan,
            1591 => ErrorCode::QueryNotFound,
            1592 => ErrorCode::QueryInUse,
            1600 => ErrorCode::CursorNotFound,
            1601 => ErrorCode::CursorBusy,
            1650 => ErrorCode::TransactionInternal,
            1651 => ErrorCode::TransactionNested,
            1652 => ErrorCode::TransactionUnregisteredCollection,
            1653 => ErrorCode::TransactionDisallowedOperation,
            1654 => ErrorCode::TransactionAborted,
            1700 => ErrorCode::UserInvalidName,
            1701 => ErrorCode::UserInvalidPassword,
            1702 => ErrorCode::UserDuplicate,
            1703 => ErrorCode::UserNotFound,
            1704 => ErrorCode::UserChangePassword,
            1750 => ErrorCode::ServiceInvalidName,
            1751 => ErrorCode::ServiceInvalidMount,
            1752 => ErrorCode::ServiceDownloadFailed,
            1753 => ErrorCode::ServiceUploadFailed,
            1800 => ErrorCode::LdapCannotInit,
            1801 => ErrorCode::LdapCannotSetOption,
            1802 => ErrorCode::LdapCannotBind,
            1803 => ErrorCode::LdapCannotUnbind,
            1804 => ErrorCode::LdapCannotSearch,
            1805 => ErrorCode::LdapCannotStartTls,
            1806 => ErrorCode::LdapFoundNoObjects,
            1807 => ErrorCode::LdapNotOneUserFound,
            1808 => ErrorCode::LdapUserNotIdentified,
            1820 => ErrorCode::LdapInvalidMode,
            1850 => ErrorCode::TaskInvalidId,
            1851 => ErrorCode::TaskDuplicateId,
            1852 => ErrorCode::TaskNotFound,
            1901 => ErrorCode::GraphInvalidGraph,
            1902 => ErrorCode::GraphCouldNotCreateGraph,
            1903 => ErrorCode::GraphInvalidVertex,
            1904 => ErrorCode::GraphCouldNotCreateVertex,
            1905 => ErrorCode::GraphCouldNotChangeVertex,
            1906 => ErrorCode::GraphInvalidEdge,
            1907 => ErrorCode::GraphCouldNotCreateEdge,
            1908 => ErrorCode::GraphCouldNotChangeEdge,
            1909 => ErrorCode::GraphTooManyIterations,
            1910 => ErrorCode::GraphInvalidFilterResult,
            1920 => ErrorCode::GraphCollectionMultiUse,
            1921 => ErrorCode::GraphCollectionUseInMultiGraphs,
            1922 => ErrorCode::GraphCreateMissingName,
            1923 => ErrorCode::GraphCreateMalformedEdgeDefinition,
            1924 => ErrorCode::GraphNotFound,
            1925 => ErrorCode::GraphDuplicate,
            1926 => ErrorCode::GraphVertexColDoesNotExist,
            1927 => ErrorCode::GraphWrongCollectionTypeVertex,
            1928 => ErrorCode::GraphNotInOrphanCollection,
            1929 => ErrorCode::GraphCollectionUsedInEdgeDef,
            1930 => ErrorCode::GraphEdgeCollectionNotUsed,
            1931 => ErrorCode::GraphNotAnArangoCollection,
            1932 => ErrorCode::GraphNoGraphCollection,
            1933 => ErrorCode::GraphInvalidExampleArrayObjectString,
            1934 => ErrorCode::GraphInvalidExampleArrayObject,
            1935 => ErrorCode::GraphInvalidNumberOfArguments,
            1936 => ErrorCode::GraphInvalidParameter,
            1937 => ErrorCode::GraphInvalidId,
            1938 => ErrorCode::GraphCollectionUsedInOrphans,
            1939 => ErrorCode::GraphEdgeColDoesNotExist,
            1940 => ErrorCode::GraphEmpty,
            1950 => ErrorCode::SessionUnknown,
            1951 => ErrorCode::SessionExpired,
            2000 => ErrorCode::SimpleClientUnknownError,
            2001 => ErrorCode::SimpleClientCouldNotConnect,
            2002 => ErrorCode::SimpleClientCouldNotWrite,
            2003 => ErrorCode::SimpleClientCouldNotRead,
            2100 => ErrorCode::CommunicatorRequestAborted,
            2101 => ErrorCode::CommunicatorDisabled,
            3000 => ErrorCode::MalformedManifestFile,
            3001 => ErrorCode::InvalidServiceManifest,
            3002 => ErrorCode::ServiceFilesMissing,
            3003 => ErrorCode::ServiceFilesOutdated,
            3004 => ErrorCode::InvalidFoxxOptions,
            3007 => ErrorCode::InvalidMountpoint,
            3009 => ErrorCode::ServiceNotFound,
            3010 => ErrorCode::ServiceNeedsConfiguration,
            3011 => ErrorCode::ServiceMountpointConflict,
            3012 => ErrorCode::ServiceManifestNotFound,
            3013 => ErrorCode::ServiceOptionsMalformed,
            3014 => ErrorCode::ServiceSourceNotFound,
            3015 => ErrorCode::ServiceSourceError,
            3016 => ErrorCode::ServiceUnknownScript,
            3100 => ErrorCode::ModuleNotFound,
            3101 => ErrorCode::ModuleSyntaxError,
            3103 => ErrorCode::ModuleFailure,
            4000 => ErrorCode::NoSmartCollection,
            4001 => ErrorCode::NoSmartGraphAttribute,
            4002 => ErrorCode::CannotDropSmartCollection,
            4003 => ErrorCode::KeyMustBePrefixedWithSmartGraphAttribute,
            4004 => ErrorCode::IllegalSmartGraphAttribute,
            20001 => ErrorCode::AgencyInquirySyntax,
            20011 => ErrorCode::AgencyInformMustBeObject,
            20012 => ErrorCode::AgencyInformMustContainTerm,
            20013 => ErrorCode::AgencyInformMustContainId,
            20014 => ErrorCode::AgencyInformMustContainActive,
            20015 => ErrorCode::AgencyInformMustContainPool,
            20016 => ErrorCode::AgencyInformMustContainMinPing,
            20017 => ErrorCode::AgencyInformMustContainMaxPing,
            20018 => ErrorCode::AgencyInformMustContainTimeoutMult,
            20020 => ErrorCode::AgencyInquireClientIdMustBeString,
            20021 => ErrorCode::AgencyCannotRebuildDbs,
            20501 => ErrorCode::SupervisionGeneralFailure,
            21001 => ErrorCode::DispatcherIsStopping,
            21002 => ErrorCode::QueueUnknown,
            21003 => ErrorCode::QueueFull,
            _ => ErrorCode::UnknownError,
        }
    }

    /// The number assigned to this error code; `u16::MAX` for `UnknownError`.
    pub fn as_u16(&self) -> (r: u16)
        ensures
            r == error_code_value(*self),
    {
        match *self {
            ErrorCode::NoError => 0,
            ErrorCode::Failed => 1,
            ErrorCode::SysError => 2,
            ErrorCode::OutOfMemory => 3,
            ErrorCode::Internal => 4,
            ErrorCode::IllegalNumber => 5,
            ErrorCode::NumericOverflow => 6,
            ErrorCode::IllegalOption => 7,
            ErrorCode::DeadPid => 8,
            ErrorCode::NotImplemented => 9,
            ErrorCode::BadParameter => 10,
            ErrorCode::Forbidden => 11,
            ErrorCode::OutOfMemoryMmap => 12,
            ErrorCode::CorruptedCsv => 13,
            ErrorCode::FileNotFound => 14,
            ErrorCode::CannotWriteFile => 15,
            ErrorCode::CannotOverwriteFile => 16,
            ErrorCode::TypeError => 17,
            ErrorCode::LockTimeout => 18,
            ErrorCode::CannotCreateDirectory => 19,
            ErrorCode::CannotCreateTempFile => 20,
            ErrorCode::RequestCanceled => 21,
            ErrorCode::Debug => 22,
            ErrorCode::IpAddressInvalid => 25,
            ErrorCode::FileExists => 27,
            ErrorCode::Locked => 28,
            ErrorCode::Deadlock => 29,
            ErrorCode::ShuttingDown => 30,
            ErrorCode::OnlyEnterprise => 31,
            ErrorCode::ResourceLimit => 32,
            ErrorCode::HttpBadParameter => 400,
            ErrorCode::HttpUnauthorized => 401,
            ErrorCode::HttpForbidden => 403,
            ErrorCode::HttpNotFound => 404,
            ErrorCode::HttpMethodNotAllowed => 405,
            ErrorCode::HttpNotAcceptable => 406,
            ErrorCode::HttpConflict => 409,
            ErrorCode::HttpPreconditionFailed => 412,
            ErrorCode::HttpServerError => 500,
            ErrorCode::HttpServiceUnavailable => 503,
            ErrorCode::HttpCorruptedJson => 600,
            ErrorCode::HttpSuperfluousSuffices => 601,
            ErrorCode::ArangoIllegalState => 1000,
            ErrorCode::ArangoDatafileSealed => 1002,
            ErrorCode::ArangoReadOnly => 1004,
            ErrorCode::ArangoDuplicateIdentifier => 1005,
            ErrorCode::ArangoDatafileUnreadable => 1006,
            ErrorCode::ArangoDatafileEmpty => 1007,
            ErrorCode::ArangoRecovery => 1008,
            ErrorCode::ArangoDatafileStatisticsNotFound => 1009,
            ErrorCode::ArangoCorruptedDatafile => 1100,
            ErrorCode::ArangoIllegalParameterFile => 1101,
            ErrorCode::ArangoCorruptedCollection => 1102,
            ErrorCode::ArangoMmapFailed => 1103,
            ErrorCode::ArangoFilesystemFull => 1104,
            ErrorCode::ArangoNoJournal => 1105,
            ErrorCode::ArangoDatafileAlreadyExists => 1106,
            ErrorCode::ArangoDatadirLocked => 1107,
            ErrorCode::ArangoCollectionDirectoryAlreadyExists => 1108,
            ErrorCode::ArangoMsyncFailed => 1109,
            ErrorCode::ArangoDatadirUnlockable => 1110,
            ErrorCode::ArangoSyncTimeout => 1111,
            ErrorCode::ArangoConflict => 1200,
            ErrorCode::ArangoDatadirInvalid => 1201,
            ErrorCode::ArangoDocumentNotFound => 1202,
            ErrorCode::ArangoCollectionNotFound => 1203,
            ErrorCode::ArangoCollectionParameterMissing => 1204,
            ErrorCode::ArangoDocumentHandleBad => 1205,
            ErrorCode::ArangoMaximalSizeTooSmall => 1206,
            ErrorCode::ArangoDuplicateName => 1207,
            ErrorCode::ArangoIllegalName => 1208,
            ErrorCode::ArangoNoIndex => 1209,
            ErrorCode::ArangoUniqueConstraintViolated => 1210,
            ErrorCode::ArangoViewNotFound => 1211,
            ErrorCode::ArangoIndexNotFound => 1212,
            ErrorCode::ArangoCrossCollectionRequest => 1213,
            ErrorCode::ArangoIndexHandleBad => 1214,
            ErrorCode::ArangoDocumentTooLarge => 1216,
            ErrorCode::ArangoCollectionNotUnloaded => 1217,
            ErrorCode::ArangoCollectionTypeInvalid => 1218,
            ErrorCode::ArangoValidationFailed => 1219,
            ErrorCode::ArangoAttributeParserFailed => 1220,
            ErrorCode::ArangoDocumentKeyBad => 1221,
            ErrorCode::ArangoDocumentKeyUnexpected => 1222,
            ErrorCode::ArangoDatadirNotWritable => 1224,
            ErrorCode::ArangoOutOfKeys => 1225,
            ErrorCode::ArangoDocumentKeyMissing => 1226,
            ErrorCode::ArangoDocumentTypeInvalid => 1227,
            ErrorCode::ArangoDatabaseNotFound => 1228,
            ErrorCode::ArangoDatabaseNameInvalid => 1229,
            ErrorCode::ArangoUseSystemDatabase => 1230,
            ErrorCode::ArangoEndpointNotFound => 1231,
            ErrorCode::ArangoInvalidKeyGenerator => 1232,
            ErrorCode::ArangoInvalidEdgeAttribute => 1233,
            ErrorCode::ArangoIndexDocumentAttributeMissing => 1234,
            ErrorCode::ArangoIndexCreationFailed => 1235,
            ErrorCode::ArangoWriteThrottleTimeout => 1236,
            ErrorCode::ArangoCollectionTypeMismatch => 1237,
            ErrorCode::ArangoCollectionNotLoaded => 1238,
            ErrorCode::ArangoDocumentRevBad => 1239,
            ErrorCode::ArangoDatafileFull => 1300,
            ErrorCode::ArangoEmptyDatadir => 1301,
            ErrorCode::ArangoTryAgain => 1302,
            ErrorCode::ArangoBusy => 1303,
            ErrorCode::ArangoMergeInProgress => 1304,
            ErrorCode::ArangoIoError => 1305,
            ErrorCode::ReplicationNoResponse => 1400,
            ErrorCode::ReplicationInvalidResponse => 1401,
            ErrorCode::ReplicationMasterError => 1402,
            ErrorCode::ReplicationMasterIncompatible => 1403,
            ErrorCode::ReplicationMasterChange => 1404,
            ErrorCode::ReplicationLoop => 1405,
            ErrorCode::ReplicationUnexpectedMarker => 1406,
            ErrorCode::ReplicationInvalidApplierState => 1407,
            ErrorCode::ReplicationUnexpectedTransaction => 1408,
            ErrorCode::ReplicationInvalidApplierConfiguration => 1410,
            ErrorCode::ReplicationRunning => 1411,
            ErrorCode::ReplicationApplierStopped => 1412,
            ErrorCode::ReplicationNoStartTick => 1413,
            ErrorCode::ReplicationStartTickNotPresent => 1414,
            ErrorCode::ReplicationWrongChecksumFormat => 1415,
            ErrorCode::ReplicationWrongChecksum => 1416,
            ErrorCode::ClusterNoAgency => 1450,
            ErrorCode::ClusterNoCoordinatorHeader => 1451,
            ErrorCode::ClusterCouldNotLockPlan => 1452,
            ErrorCode::ClusterCollectionIdExists => 1453,
            ErrorCode::ClusterCouldNotCreateCollectionInPlan => 1454,
            ErrorCode::ClusterCouldNotReadCurrentVersion => 1455,
            ErrorCode::ClusterCouldNotCreateCollection => 1456,
            ErrorCode::ClusterTimeout => 1457,
            ErrorCode::ClusterCouldNotRemoveCollectionInPlan => 1458,
            ErrorCode::ClusterCouldNotRemoveCollectionInCurrent => 1459,
            ErrorCode::ClusterCouldNotCreateDatabaseInPlan => 1460,
            ErrorCode::ClusterCouldNotCreateDatabase => 1461,
            ErrorCode::ClusterCouldNotRemoveDatabaseInPlan => 1462,
            ErrorCode::ClusterCouldNotRemoveDatabaseInCurrent => 1463,
            ErrorCode::ClusterShardGone => 1464,
            ErrorCode::ClusterConnectionLost => 1465,
            ErrorCode::ClusterMustNotSpecifyKey => 1466,
            ErrorCode::ClusterGotContradictingAnswers => 1467,
            ErrorCode::ClusterNotAllShardingAttributesGiven => 1468,
            ErrorCode::ClusterMustNotChangeShardingAttributes => 1469,
            ErrorCode::ClusterUnsupported => 1470,
            ErrorCode::ClusterOnlyOnCoordinator => 1471,
            ErrorCode::ClusterReadingPlanAgency => 1472,
            ErrorCode::ClusterCouldNotTruncateCollection => 1473,
            ErrorCode::ClusterAqlCommunication => 1474,
            ErrorCode::ArangoDocumentNotFoundOrShardingAttributesChanged => 1475,
            ErrorCode::ClusterCouldNotDetermineId => 1476,
            ErrorCode::ClusterOnlyOnDbserver => 1477,
            ErrorCode::ClusterBackendUnavailable => 1478,
            ErrorCode::ClusterUnknownCallbackEndpoint => 1479,
            ErrorCode::ClusterAgencyStructureInvalid => 1480,
            ErrorCode::ClusterAqlCollectionOutOfSync => 1481,
            ErrorCode::ClusterCouldNotCreateIndexInPlan => 1482,
            ErrorCode::ClusterCouldNotDropIndexInPlan => 1483,
            ErrorCode::ClusterChainOfDistributeshardslike => 1484,
            ErrorCode::ClusterMustNotDropCollOtherDistributeshardslike => 1485,
            ErrorCode::ClusterUnknownDistributeshardslike => 1486,
            ErrorCode::ClusterInsufficientDbservers => 1487,
            ErrorCode::ClusterCouldNotDropFollower => 1488,
            ErrorCode::ClusterShardLeaderRefusesReplication => 1489,
            ErrorCode::ClusterShardFollowerRefusesOperation => 1490,
            ErrorCode::ClusterShardLeaderResigned => 1491,
            ErrorCode::ClusterAgencyCommunicationFailed => 1492,
            ErrorCode::ClusterDistributeShardsLikeReplicationFactor => 1493,
            ErrorCode::ClusterDistributeShardsLikeNumberOfShards => 1494,
            ErrorCode::QueryKilled => 1500,
            ErrorCode::QueryParse => 1501,
            ErrorCode::QueryEmpty => 1502,
            ErrorCode::QueryScript => 1503,
            ErrorCode::QueryNumberOutOfRange => 1504,
            ErrorCode::QueryVariableNameInvalid => 1510,
            ErrorCode::QueryVariableRedeclared => 1511,
            ErrorCode::QueryVariableNameUnknown => 1512,
            ErrorCode::QueryCollectionLockFailed => 1521,
            ErrorCode::QueryTooManyCollections => 1522,
            ErrorCode::QueryDocumentAttributeRedeclared => 1530,
            ErrorCode::QueryFunctionNameUnknown => 1540,
            ErrorCode::QueryFunctionArgumentNumberMismatch => 1541,
            ErrorCode::QueryFunctionArgumentTypeMismatch => 1542,
            ErrorCode::QueryInvalidRegex => 1543,
            ErrorCode::QueryBindParametersInvalid => 1550,
            ErrorCode::QueryBindParameterMissing => 1551,
            ErrorCode::QueryBindParameterUndeclared => 1552,
            ErrorCode::QueryBindParameterType => 1553,
            ErrorCode::QueryInvalidLogicalValue => 1560,
            ErrorCode::QueryInvalidArithmeticValue => 1561,
            ErrorCode::QueryDivisionByZero => 1562,
            ErrorCode::QueryArrayExpected => 1563,
            ErrorCode::QueryFailCalled => 1569,
            ErrorCode::QueryGeoIndexMissing => 1570,
            ErrorCode::QueryFulltextIndexMissing => 1571,
            ErrorCode::QueryInvalidDateValue => 1572,
            ErrorCode::QueryMultiModify => 1573,
            ErrorCode::QueryInvalidAggregateExpression => 1574,
            ErrorCode::QueryCompileTimeOptions => 1575,
            ErrorCode::QueryExceptionOptions => 1576,
            ErrorCode::QueryCollectionUsedInExpression => 1577,
            ErrorCode::QueryDisallowedDynamicCall => 1578,
            ErrorCode::QueryAccessAfterModification => 1579,
            ErrorCode::QueryFunctionInvalidName => 1580,
            ErrorCode::QueryFunctionInvalidCode => 1581,
            ErrorCode::QueryFunctionNotFound => 1582,
            ErrorCode::QueryFunctionRuntimeError => 1583,
            ErrorCode::QueryBadJsonPlan => 1590,
            ErrorCode::QueryNotFound => 1591,
            ErrorCode::QueryInUse => 1592,
            ErrorCode::CursorNotFound => 1600,
            ErrorCode::CursorBusy => 1601,
            ErrorCode::TransactionInternal => 1650,
            ErrorCode::TransactionNested => 1651,
            ErrorCode::TransactionUnregisteredCollection => 1652,
            ErrorCode::TransactionDisallowedOperation => 1653,
            ErrorCode::TransactionAborted => 1654,
            ErrorCode::UserInvalidName => 1700,
            ErrorCode::UserInvalidPassword => 1701,
            ErrorCode::UserDuplicate => 1702,
            ErrorCode::UserNotFound => 1703,
            ErrorCode::UserChangePassword => 1704,
            ErrorCode::ServiceInvalidName => 1750,
            ErrorCode::ServiceInvalidMount => 1751,
            ErrorCode::ServiceDownloadFailed => 1752,
            ErrorCode::ServiceUploadFailed => 1753,
            ErrorCode::LdapCannotInit => 1800,
            ErrorCode::LdapCannotSetOption => 1801,
            ErrorCode::LdapCannotBind => 1802,
            ErrorCode::LdapCannotUnbind => 1803,
            ErrorCode::LdapCannotSearch => 1804,
            ErrorCode::LdapCannotStartTls => 1805,
            ErrorCode::LdapFoundNoObjects => 1806,
            ErrorCode::LdapNotOneUserFound => 1807,
            ErrorCode::LdapUserNotIdentified => 1808,
            ErrorCode::LdapInvalidMode => 1820,
            ErrorCode::TaskInvalidId => 1850,
            ErrorCode::TaskDuplicateId => 1851,
            ErrorCode::TaskNotFound => 1852,
            ErrorCode::GraphInvalidGraph => 1901,
            ErrorCode::GraphCouldNotCreateGraph => 1902,
            ErrorCode::GraphInvalidVertex => 1903,
            ErrorCode::GraphCouldNotCreateVertex => 1904,
            ErrorCode::GraphCouldNotChangeVertex => 1905,
            ErrorCode::GraphInvalidEdge => 1906,
            ErrorCode::GraphCouldNotCreateEdge => 1907,
            ErrorCode::GraphCouldNotChangeEdge => 1908,
            ErrorCode::GraphTooManyIterations => 1909,
            ErrorCode::GraphInvalidFilterResult => 1910,
            ErrorCode::GraphCollectionMultiUse => 1920,
            ErrorCode::GraphCollectionUseInMultiGraphs => 1921,
            ErrorCode::GraphCreateMissingName => 1922,
            ErrorCode::GraphCreateMalformedEdgeDefinition => 1923,
            ErrorCode::GraphNotFound => 1924,
            ErrorCode::GraphDuplicate => 1925,
            ErrorCode::GraphVertexColDoesNotExist => 1926,
            ErrorCode::GraphWrongCollectionTypeVertex => 1927,
            ErrorCode::GraphNotInOrphanCollection => 1928,
            ErrorCode::GraphCollectionUsedInEdgeDef => 1929,
            ErrorCode::GraphEdgeCollectionNotUsed => 1930,
            ErrorCode::GraphNotAnArangoCollection => 1931,
            ErrorCode::GraphNoGraphCollection => 1932,
            ErrorCode::GraphInvalidExampleArrayObjectString => 1933,
            ErrorCode::GraphInvalidExampleArrayObject => 1934,
            ErrorCode::GraphInvalidNumberOfArguments => 1935,
            ErrorCode::GraphInvalidParameter => 1936,
            ErrorCode::GraphInvalidId => 1937,
            ErrorCode::GraphCollectionUsedInOrphans => 1938,
            ErrorCode::GraphEdgeColDoesNotExist => 1939,
            ErrorCode::GraphEmpty => 1940,
            ErrorCode::SessionUnknown => 1950,
            ErrorCode::SessionExpired => 1951,
            ErrorCode::SimpleClientUnknownError => 2000,
            ErrorCode::SimpleClientCouldNotConnect => 2001,
            ErrorCode::SimpleClientCouldNotWrite => 2002,
            ErrorCode::SimpleClientCouldNotRead => 2003,
            ErrorCode::CommunicatorRequestAborted => 2100,
            ErrorCode::CommunicatorDisabled => 2101,
            ErrorCode::MalformedManifestFile => 3000,
            ErrorCode::InvalidServiceManifest => 3001,
            ErrorCode::ServiceFilesMissing => 3002,
            ErrorCode::ServiceFilesOutdated => 3003,
            ErrorCode::InvalidFoxxOptions => 3004,
            ErrorCode::InvalidMountpoint => 3007,
            ErrorCode::ServiceNotFound => 3009,
            ErrorCode::ServiceNeedsConfiguration => 3010,
            ErrorCode::ServiceMountpointConflict => 3011,
            ErrorCode::ServiceManifestNotFound => 3012,
            ErrorCode::ServiceOptionsMalformed => 3013,
            ErrorCode::ServiceSourceNotFound => 3014,
            ErrorCode::ServiceSourceError => 3015,
            ErrorCode::ServiceUnknownScript => 3016,
            ErrorCode::ModuleNotFound => 3100,
            ErrorCode::ModuleSyntaxError => 3101,
            ErrorCode::ModuleFailure => 3103,
            ErrorCode::NoSmartCollection => 4000,
            ErrorCode::NoSmartGraphAttribute => 4001,
            ErrorCode::CannotDropSmartCollection => 4002,
            ErrorCode::KeyMustBePrefixedWithSmartGraphAttribute => 4003,
            ErrorCode::IllegalSmartGraphAttribute => 4004,
            ErrorCode::AgencyInquirySyntax => 20001,
            ErrorCode::AgencyInformMustBeObject => 20011,
            ErrorCode::AgencyInformMustContainTerm => 20012,
            ErrorCode::AgencyInformMustContainId => 20013,
            ErrorCode::AgencyInformMustContainActive => 20014,
            ErrorCode::AgencyInformMustContainPool => 20015,
            ErrorCode::AgencyInformMustContainMinPing => 20016,
            ErrorCode::AgencyInformMustContainMaxPing => 20017,
            ErrorCode::AgencyInformMustContainTimeoutMult => 20018,
            ErrorCode::AgencyInquireClientIdMustBeString => 20020,
            ErrorCode::AgencyCannotRebuildDbs => 20021,
            ErrorCode::SupervisionGeneralFailure => 20501,
            ErrorCode::DispatcherIsStopping => 21001,
            ErrorCode::QueueUnknown => 21002,
            ErrorCode::QueueFull => 21003,
            ErrorCode::UnknownError => 0xffff,
        }
    }

    /// A short description of when the error occurs.
    pub fn description(&self) -> (r: &'static str)
        ensures
            r@ == error_code_description(*self),
    {
        match *self {
            ErrorCode::NoError => "No error has occurred.",
            ErrorCode::Failed => "Will be raised when a general error occurred.",
            ErrorCode::SysError => "Will be raised when operating system error occurred.",
            ErrorCode::OutOfMemory => "Will be raised when there is a memory shortage.",
            ErrorCode::Internal => "Will be raised when an internal error occurred.",
            ErrorCode::IllegalNumber => "Will be raised when an illegal representation of a number was given.",
            ErrorCode::NumericOverflow => "Will be raised when a numeric overflow occurred.",
            ErrorCode::IllegalOption => "Will be raised when an unknown option was supplied by the user.",
            ErrorCode::DeadPid => "Will be raised when a PID without a living process was found.",
            ErrorCode::NotImplemented => "Will be raised when hitting an unimplemented feature.",
            ErrorCode::BadParameter => "Will be raised when the parameter does not fulfill the requirements.",
            ErrorCode::Forbidden => "Will be raised when you are missing permission for the operation.",
            ErrorCode::OutOfMemoryMmap => "Will be raised when there is a memory shortage.",
            ErrorCode::CorruptedCsv => "Will be raised when encountering a corrupt csv line.",
            ErrorCode::FileNotFound => "Will be raised when a file is not found.",
            ErrorCode::CannotWriteFile => "Will be raised when a file cannot be written.",
            ErrorCode::CannotOverwriteFile => "Will be raised when an attempt is made to overwrite an existing file.",
            ErrorCode::TypeError => "Will be raised when a type error is encountered.",
            ErrorCode::LockTimeout => "Will be raised when there's a timeout waiting for a lock.",
            ErrorCode::CannotCreateDirectory => "Will be raised when an attempt to create a directory fails.",
            ErrorCode::CannotCreateTempFile => "Will be raised when an attempt to create a temporary file fails.",
            ErrorCode::RequestCanceled => "Will be raised when a request is canceled by the user.",
            ErrorCode::Debug => "Will be raised intentionally during debugging.",
            ErrorCode::IpAddressInvalid => "Will be raised when the structure of an IP address is invalid.",
            ErrorCode::FileExists => "Will be raised when a file already exists.",
            ErrorCode::Locked => "Will be raised when a resource or an operation is locked.",
            ErrorCode::Deadlock => "Will be raised when a deadlock is detected when accessing collections.",
            ErrorCode::ShuttingDown => "Will be raised when a call cannot succeed because a server shutdown is already in progress.",
            ErrorCode::OnlyEnterprise => "Will be raised when an enterprise-feature is requested from the community edition.",
            ErrorCode::ResourceLimit => "Will be raised when the resources used by an operation exceed the configured maximum value.",
            ErrorCode::HttpBadParameter => "Will be raised when the HTTP request does not fulfill the requirements.",
            ErrorCode::HttpUnauthorized => "Will be raised when authorization is required but the user is not authorized.",
            ErrorCode::HttpForbidden => "Will be raised when the operation is forbidden.",
            ErrorCode::HttpNotFound => "Will be raised when an URI is unknown.",
            ErrorCode::HttpMethodNotAllowed => "Will be raised when an unsupported HTTP method is used for an operation.",
            ErrorCode::HttpNotAcceptable => "Will be raised when an unsupported HTTP content type is used for an operation, or if a request is not acceptable for a leader or follower.",
            ErrorCode::HttpConflict => "Will be raised when a conflict with the current state of a resource is found.",
            ErrorCode::HttpPreconditionFailed => "Will be raised when a precondition for an HTTP request is not met.",
            ErrorCode::HttpServerError => "Will be raised when an internal server is encountered.",
            ErrorCode::HttpServiceUnavailable => "Will be raised when a service is temporarily unavailable.",
            ErrorCode::HttpCorruptedJson => "Will be raised when a string representation of a JSON object is corrupt.",
            ErrorCode::HttpSuperfluousSuffices => "Will be raised when the URL contains superfluous suffices.",
            ErrorCode::ArangoIllegalState => "Internal error that will be raised when the datafile is not in the required state.",
            ErrorCode::ArangoDatafileSealed => "Internal error that will be raised when trying to write to a datafile.",
            ErrorCode::ArangoReadOnly => "Internal error that will be raised when trying to write to a read-only datafile or collection.",
            ErrorCode::ArangoDuplicateIdentifier => "Internal error that will be raised when a identifier duplicate is detected.",
            ErrorCode::ArangoDatafileUnreadable => "Internal error that will be raised when a datafile is unreadable.",
            ErrorCode::ArangoDatafileEmpty => "Internal error that will be raised when a datafile is empty.",
            ErrorCode::ArangoRecovery => "Will be raised when an error occurred during WAL log file recovery.",
            ErrorCode::ArangoDatafileStatisticsNotFound => "Will be raised when a required datafile statistics object was not found.",
            ErrorCode::ArangoCorruptedDatafile => "Will be raised when a corruption is detected in a datafile.",
            ErrorCode::ArangoIllegalParameterFile => "Will be raised if a parameter file is corrupted or cannot be read.",
            ErrorCode::ArangoCorruptedCollection => "Will be raised when a collection contains one or more corrupted data files.",
            ErrorCode::ArangoMmapFailed => "Will be raised when the system call mmap failed.",
            ErrorCode::ArangoFilesystemFull => "Will be raised when the filesystem is full.",
            ErrorCode::ArangoNoJournal => "Will be raised when a journal cannot be created.",
            ErrorCode::ArangoDatafileAlreadyExists => "Will be raised when the datafile cannot be created or renamed because a file of the same name already exists.",
            ErrorCode::ArangoDatadirLocked => "Will be raised when the database directory is locked by a different process.",
            ErrorCode::ArangoCollectionDirectoryAlreadyExists => "Will be raised when the collection cannot be created because a directory of the same name already exists.",
            ErrorCode::ArangoMsyncFailed => "Will be raised when the system call msync failed.",
            ErrorCode::ArangoDatadirUnlockable => "Will be raised when the server cannot lock the database directory on startup.",
            ErrorCode::ArangoSyncTimeout => "Will be raised when the server waited too long for a datafile to be synced to disk.",
            ErrorCode::ArangoConflict => "Will be raised when updating or deleting a document and a conflict has been detected.",
            ErrorCode::ArangoDatadirInvalid => "Will be raised when a non-existing database directory was specified when starting the database.",
            ErrorCode::ArangoDocumentNotFound => "Will be raised when a document with a given identifier or handle is unknown.",
            ErrorCode::ArangoCollectionNotFound => "Will be raised when a collection with the given identifier or name is unknown.",
            ErrorCode::ArangoCollectionParameterMissing => "Will be raised when the collection parameter is missing.",
            ErrorCode::ArangoDocumentHandleBad => "Will be raised when a document handle is corrupt.",
            ErrorCode::ArangoMaximalSizeTooSmall => "Will be raised when the maximal size of the journal is too small.",
            ErrorCode::ArangoDuplicateName => "Will be raised when a name duplicate is detected.",
            ErrorCode::ArangoIllegalName => "Will be raised when an illegal name is detected.",
            ErrorCode::ArangoNoIndex => "Will be raised when no suitable index for the query is known.",
            ErrorCode::ArangoUniqueConstraintViolated => "Will be raised when there is a unique constraint violation.",
            ErrorCode::ArangoViewNotFound => "Will be raised when a view with the given identifier or name is unknown.",
            ErrorCode::ArangoIndexNotFound => "Will be raised when an index with a given identifier is unknown.",
            ErrorCode::ArangoCrossCollectionRequest => "Will be raised when a cross-collection is requested.",
            ErrorCode::ArangoIndexHandleBad => "Will be raised when a index handle is corrupt.",
            ErrorCode::ArangoDocumentTooLarge => "Will be raised when the document cannot fit into any datafile because of it is too large.",
            ErrorCode::ArangoCollectionNotUnloaded => "Will be raised when a collection should be unloaded, but has a different status.",
            ErrorCode::ArangoCollectionTypeInvalid => "Will be raised when an invalid collection type is used in a request.",
            ErrorCode::ArangoValidationFailed => "Will be raised when the validation of an attribute of a structure failed.",
            ErrorCode::ArangoAttributeParserFailed => "Will be raised when parsing an attribute name definition failed.",
            ErrorCode::ArangoDocumentKeyBad => "Will be raised when a document key is corrupt.",
            ErrorCode::ArangoDocumentKeyUnexpected => "Will be raised when a user-defined document key is supplied for collections with auto key generation.",
            ErrorCode::ArangoDatadirNotWritable => "Will be raised when the server's database directory is not writable for the current user.",
            ErrorCode::ArangoOutOfKeys => "Will be raised when a key generator runs out of keys.",
            ErrorCode::ArangoDocumentKeyMissing => "Will be raised when a document key is missing.",
            ErrorCode::ArangoDocumentTypeInvalid => "Will be raised when there is an attempt to create a document with an invalid type.",
            ErrorCode::ArangoDatabaseNotFound => "Will be raised when a non-existing database is accessed.",
            ErrorCode::ArangoDatabaseNameInvalid => "Will be raised when an invalid database name is used.",
            ErrorCode::ArangoUseSystemDatabase => "Will be raised when an operation is requested in a database other than the system database.",
            ErrorCode::ArangoEndpointNotFound => "Will be raised when there is an attempt to delete a non-existing endpoint.",
            ErrorCode::ArangoInvalidKeyGenerator => "Will be raised when an invalid key generator description is used.",
            ErrorCode::ArangoInvalidEdgeAttribute => "will be raised when the _from or _to values of an edge are undefined or contain an invalid value.",
            ErrorCode::ArangoIndexDocumentAttributeMissing => "Will be raised when an attempt to insert a document into an index is caused by in the document not having one or more attributes which the index is built on.",
            ErrorCode::ArangoIndexCreationFailed => "Will be raised when an attempt to create an index has failed.",
            ErrorCode::ArangoWriteThrottleTimeout => "Will be raised when the server is write-throttled and a write operation has waited too long for the server to process queued operations.",
            ErrorCode::ArangoCollectionTypeMismatch => "Will be raised when a collection has a different type from what has been expected.",
            ErrorCode::ArangoCollectionNotLoaded => "Will be raised when a collection is accessed that is not yet loaded.",
            ErrorCode::ArangoDocumentRevBad => "Will be raised when a document revision is corrupt or is missing where needed.",
            ErrorCode::ArangoDatafileFull => "Will be raised when the datafile reaches its limit.",
            ErrorCode::ArangoEmptyDatadir => "Will be raised when encountering an empty server database directory.",
            ErrorCode::ArangoTryAgain => "Will be raised when an operation should be retried.",
            ErrorCode::ArangoBusy => "Will be raised when storage engine is busy.",
            ErrorCode::ArangoMergeInProgress => "Will be raised when storage engine has a datafile merge in progress and cannot complete the operation.",
            ErrorCode::ArangoIoError => "Will be raised when storage engine encounters an I/O error.",
            ErrorCode::ReplicationNoResponse => "Will be raised when the replication applier does not receive any or an incomplete response from the master.",
            ErrorCode::ReplicationInvalidResponse => "Will be raised when the replication applier receives an invalid response from the master.",
            ErrorCode::ReplicationMasterError => "Will be raised when the replication applier receives a server error from the master.",
            ErrorCode::ReplicationMasterIncompatible => "Will be raised when the replication applier connects to a master that has an incompatible version.",
            ErrorCode::ReplicationMasterChange => "Will be raised when the replication applier connects to a different master than before.",
            ErrorCode::ReplicationLoop => "Will be raised when the replication applier is asked to connect to itself for replication.",
            ErrorCode::ReplicationUnexpectedMarker => "Will be raised when an unexpected marker is found in the replication log stream.",
            ErrorCode::ReplicationInvalidApplierState => "Will be raised when an invalid replication applier state file is found.",
            ErrorCode::ReplicationUnexpectedTransaction => "Will be raised when an unexpected transaction id is found.",
            ErrorCode::ReplicationInvalidApplierConfiguration => "Will be raised when the configuration for the replication applier is invalid.",
            ErrorCode::ReplicationRunning => "Will be raised when there is an attempt to perform an operation while the replication applier is running.",
            ErrorCode::ReplicationApplierStopped => "Special error code used to indicate the replication applier was stopped by a user.",
            ErrorCode::ReplicationNoStartTick => "Will be raised when the replication applier is started without a known start tick value.",
            ErrorCode::ReplicationStartTickNotPresent => "Will be raised when the replication applier fetches data using a start tick, but that start tick is not present on the logger server anymore.",
            ErrorCode::ReplicationWrongChecksumFormat => "Will be raised when the format of the checksum is wrong",
            ErrorCode::ReplicationWrongChecksum => "Will be raised when a new born follower submits a wrong checksum",
            ErrorCode::ClusterNoAgency => "Will be raised when none of the agency servers can be connected to.",
            ErrorCode::ClusterNoCoordinatorHeader => "Will be raised when a DB server in a cluster receives a HTTP request without a coordinator header.",
            ErrorCode::ClusterCouldNotLockPlan => "Will be raised when a coordinator in a cluster cannot lock the Plan hierarchy in the agency.",
            ErrorCode::ClusterCollectionIdExists => "Will be raised when a coordinator in a cluster tries to create a collection and the collection ID already exists.",
            ErrorCode::ClusterCouldNotCreateCollectionInPlan => "Will be raised when a coordinator in a cluster cannot create an entry for a new collection in the Plan hierarchy in the agency.",
            ErrorCode::ClusterCouldNotReadCurrentVersion => "Will be raised when a coordinator in a cluster cannot read the Version entry in the Current hierarchy in the agency.",
            ErrorCode::ClusterCouldNotCreateCollection => "Will be raised when a coordinator in a cluster notices that some DBServers report problems when creating shards for a new collection.",
            ErrorCode::ClusterTimeout => "Will be raised when a coordinator in a cluster runs into a timeout for some cluster wide operation.",
            ErrorCode::ClusterCouldNotRemoveCollectionInPlan => "Will be raised when a coordinator in a cluster cannot remove an entry for a collection in the Plan hierarchy in the agency.",
            ErrorCode::ClusterCouldNotRemoveCollectionInCurrent => "Will be raised when a coordinator in a cluster cannot remove an entry for a collection in the Current hierarchy in the agency.",
            ErrorCode::ClusterCouldNotCreateDatabaseInPlan => "Will be raised when a coordinator in a cluster cannot create an entry for a new database in the Plan hierarchy in the agency.",
            ErrorCode::ClusterCouldNotCreateDatabase => "Will be raised when a coordinator in a cluster notices that some DBServers report problems when creating databases for a new cluster wide database.",
            ErrorCode::ClusterCouldNotRemoveDatabaseInPlan => "Will be raised when a coordinator in a cluster cannot remove an entry for a database in the Plan hierarchy in the agency.",
            ErrorCode::ClusterCouldNotRemoveDatabaseInCurrent => "Will be raised when a coordinator in a cluster cannot remove an entry for a database in the Current hierarchy in the agency.",
            ErrorCode::ClusterShardGone => "Will be raised when a coordinator in a cluster cannot determine the shard that is responsible for a given document.",
            ErrorCode::ClusterConnectionLost => "Will be raised when a coordinator in a cluster loses an HTTP connection to a DBserver in the cluster whilst transferring data.",
            ErrorCode::ClusterMustNotSpecifyKey => "Will be raised when a coordinator in a cluster finds that the _key attribute was specified in a sharded collection the uses not only _key as sharding attribute.",
            ErrorCode::ClusterGotContradictingAnswers => "Will be raised if a coordinator in a cluster gets conflicting results from different shards, which should never happen.",
            ErrorCode::ClusterNotAllShardingAttributesGiven => "Will be raised if a coordinator tries to find out which shard is responsible for a partial document, but cannot do this because not all sharding attributes are specified.",
            ErrorCode::ClusterMustNotChangeShardingAttributes => "Will be raised if there is an attempt to update the value of a shard attribute.",
            ErrorCode::ClusterUnsupported => "Will be raised when there is an attempt to carry out an operation that is not supported in the context of a sharded collection.",
            ErrorCode::ClusterOnlyOnCoordinator => "Will be raised if there is an attempt to run a coordinator-only operation on a different type of node.",
            ErrorCode::ClusterReadingPlanAgency => "Will be raised if a coordinator or DBserver cannot read the Plan in the agency.",
            ErrorCode::ClusterCouldNotTruncateCollection => "Will be raised if a coordinator cannot truncate all shards of a cluster collection.",
            ErrorCode::ClusterAqlCommunication => "Will be raised if the internal communication of the cluster for AQL produces an error.",
            ErrorCode::ArangoDocumentNotFoundOrShardingAttributesChanged => "Will be raised when a document with a given identifier or handle is unknown, or if the sharding attributes have been changed in a REPLACE operation in the cluster.",
            ErrorCode::ClusterCouldNotDetermineId => "Will be raised if a cluster server at startup could not determine its own ID from the local info provided.",
            ErrorCode::ClusterOnlyOnDbserver => "Will be raised if there is an attempt to run a DBserver-only operation on a different type of node.",
            ErrorCode::ClusterBackendUnavailable => "Will be raised if a required db server can't be reached.",
            ErrorCode::ClusterUnknownCallbackEndpoint => "An endpoint couldn't be found",
            ErrorCode::ClusterAgencyStructureInvalid => "The structure in the agency is invalid",
            ErrorCode::ClusterAqlCollectionOutOfSync => "Will be raised if a collection needed during query execution is out of sync. This currently can only happen when using satellite collections",
            ErrorCode::ClusterCouldNotCreateIndexInPlan => "Will be raised when a coordinator in a cluster cannot create an entry for a new index in the Plan hierarchy in the agency.",
            ErrorCode::ClusterCouldNotDropIndexInPlan => "Will be raised when a coordinator in a cluster cannot remove an index from the Plan hierarchy in the agency.",
            ErrorCode::ClusterChainOfDistributeshardslike => "Will be raised if one tries to create a collection with a distributeShardsLike attribute which points to another collection that also has one.",
            ErrorCode::ClusterMustNotDropCollOtherDistributeshardslike => "Will be raised if one tries to drop a collection to which another collection points with its distributeShardsLike attribute.",
            ErrorCode::ClusterUnknownDistributeshardslike => "Will be raised if one tries to create a collection which points to an unknown collection in its distributeShardsLike attribute.",
            ErrorCode::ClusterInsufficientDbservers => "Will be raised if one tries to create a collection with a replicationFactor greater than the available number of DBServers.",
            ErrorCode::ClusterCouldNotDropFollower => "Will be raised if a follower that ought to be dropped could not be dropped in the agency (under Current).",
            ErrorCode::ClusterShardLeaderRefusesReplication => "Will be raised if a replication operation is refused by a shard leader.",
            ErrorCode::ClusterShardFollowerRefusesOperation => "Will be raised if a non-replication operation is refused by a shard follower.",
            ErrorCode::ClusterShardLeaderResigned => "Will be raised if a non-replication operation is refused by a former shard leader that has found out that it is no longer the leader.",
            ErrorCode::ClusterAgencyCommunicationFailed => "Will be raised if after various retries an agency operation could not be performed successfully.",
            ErrorCode::ClusterDistributeShardsLikeReplicationFactor => "Will be raised if intended replication factor does not match that of the prototype shard given in ditributeShardsLike parameter.",
            ErrorCode::ClusterDistributeShardsLikeNumberOfShards => "Will be raised if intended number of shards does not match that of the prototype shard given in ditributeShardsLike parameter.",
            ErrorCode::QueryKilled => "Will be raised when a running query is killed by an explicit admin command.",
            ErrorCode::QueryParse => "Will be raised when query is parsed and is found to be syntactically invalid.",
            ErrorCode::QueryEmpty => "Will be raised when an empty query is specified.",
            ErrorCode::QueryScript => "Will be raised when a runtime error is caused by the query.",
            ErrorCode::QueryNumberOutOfRange => "Will be raised when a number is outside the expected range.",
            ErrorCode::QueryVariableNameInvalid => "Will be raised when an invalid variable name is used.",
            ErrorCode::QueryVariableRedeclared => "Will be raised when a variable gets re-assigned in a query.",
            ErrorCode::QueryVariableNameUnknown => "Will be raised when an unknown variable is used or the variable is undefined the context it is used.",
            ErrorCode::QueryCollectionLockFailed => "Will be raised when a read lock on the collection cannot be acquired.",
            ErrorCode::QueryTooManyCollections => "Will be raised when the number of collections in a query is beyond the allowed value.",
            ErrorCode::QueryDocumentAttributeRedeclared => "Will be raised when a document attribute is re-assigned.",
            ErrorCode::QueryFunctionNameUnknown => "Will be raised when an undefined function is called.",
            ErrorCode::QueryFunctionArgumentNumberMismatch => "Will be raised when the number of arguments used in a function call does not match the expected number of arguments for the function.",
            ErrorCode::QueryFunctionArgumentTypeMismatch => "Will be raised when the type of an argument used in a function call does not match the expected argument type.",
            ErrorCode::QueryInvalidRegex => "Will be raised when an invalid regex argument value is used in a call to a function that expects a regex.",
            ErrorCode::QueryBindParametersInvalid => "Will be raised when the structure of bind parameters passed has an unexpected format.",
            ErrorCode::QueryBindParameterMissing => "Will be raised when a bind parameter was declared in the query but the query is being executed with no value for that parameter.",
            ErrorCode::QueryBindParameterUndeclared => "Will be raised when a value gets specified for an undeclared bind parameter.",
            ErrorCode::QueryBindParameterType => "Will be raised when a bind parameter has an invalid value or type.",
            ErrorCode::QueryInvalidLogicalValue => "Will be raised when a non-boolean value is used in a logical operation.",
            ErrorCode::QueryInvalidArithmeticValue => "Will be raised when a non-numeric value is used in an arithmetic operation.",
            ErrorCode::QueryDivisionByZero => "Will be raised when there is an attempt to divide by zero.",
            ErrorCode::QueryArrayExpected => "Will be raised when a non-array operand is used for an operation that expects an array argument operand.",
            ErrorCode::QueryFailCalled => "Will be raised when the function FAIL() is called from inside a query.",
            ErrorCode::QueryGeoIndexMissing => "Will be raised when a geo restriction was specified but no suitable geo index is found to resolve it.",
            ErrorCode::QueryFulltextIndexMissing => "Will be raised when a fulltext query is performed on a collection without a suitable fulltext index.",
            ErrorCode::QueryInvalidDateValue => "Will be raised when a value cannot be converted to a date.",
            ErrorCode::QueryMultiModify => "Will be raised when an AQL query contains more than one data-modifying operation.",
            ErrorCode::QueryInvalidAggregateExpression => "Will be raised when an AQL query contains an invalid aggregate expression.",
            ErrorCode::QueryCompileTimeOptions => "Will be raised when an AQL data-modification query contains options that cannot be figured out at query compile time.",
            ErrorCode::QueryExceptionOptions => "Will be raised when an AQL data-modification query contains an invalid options specification.",
            ErrorCode::QueryCollectionUsedInExpression => "Will be raised when a collection is used as an operand in an AQL expression.",
            ErrorCode::QueryDisallowedDynamicCall => "Will be raised when a dynamic function call is made to a function that cannot be called dynamically.",
            ErrorCode::QueryAccessAfterModification => "Will be raised when collection data are accessed after a data-modification operation.",
            ErrorCode::QueryFunctionInvalidName => "Will be raised when a user function with an invalid name is registered.",
            ErrorCode::QueryFunctionInvalidCode => "Will be raised when a user function is registered with invalid code.",
            ErrorCode::QueryFunctionNotFound => "Will be raised when a user function is accessed but not found.",
            ErrorCode::QueryFunctionRuntimeError => "Will be raised when a user function throws a runtime exception.",
            ErrorCode::QueryBadJsonPlan => "Will be raised when an HTTP API for a query got an invalid JSON object.",
            ErrorCode::QueryNotFound => "Will be raised when an Id of a query is not found by the HTTP API.",
            ErrorCode::QueryInUse => "Will be raised when an Id of a query is found by the HTTP API but the query is in use.",
            ErrorCode::CursorNotFound => "Will be raised when a cursor is requested via its id but a cursor with that id cannot be found.",
            ErrorCode::CursorBusy => "Will be raised when a cursor is requested via its id but a concurrent request is still using the cursor.",
            ErrorCode::TransactionInternal => "Will be raised when a wrong usage of transactions is detected. this is an internal error and indicates a bug in ArangoDB.",
            ErrorCode::TransactionNested => "Will be raised when transactions are nested.",
            ErrorCode::TransactionUnregisteredCollection => "Will be raised when a collection is used in the middle of a transaction but was not registered at transaction start.",
            ErrorCode::TransactionDisallowedOperation => "Will be raised when a disallowed operation is carried out in a transaction.",
            ErrorCode::TransactionAborted => "Will be raised when a transaction was aborted.",
            ErrorCode::UserInvalidName => "Will be raised when an invalid user name is used.",
            ErrorCode::UserInvalidPassword => "Will be raised when an invalid password is used.",
            ErrorCode::UserDuplicate => "Will be raised when a user name already exists.",
            ErrorCode::UserNotFound => "Will be raised when a user name is updated that does not exist.",
            ErrorCode::UserChangePassword => "Will be raised when the user must change his password.",
            ErrorCode::ServiceInvalidName => "Will be raised when an invalid service name is specified.",
            ErrorCode::ServiceInvalidMount => "Will be raised when an invalid mount is specified.",
            ErrorCode::ServiceDownloadFailed => "Will be raised when a service download from the central repository failed.",
            ErrorCode::ServiceUploadFailed => "Will be raised when a service upload from the client to the ArangoDB server failed.",
            ErrorCode::LdapCannotInit => "can not init a LDAP connection",
            ErrorCode::LdapCannotSetOption => "can not set a LDAP option",
            ErrorCode::LdapCannotBind => "can not bind to a LDAP server",
            ErrorCode::LdapCannotUnbind => "can not unbind from a LDAP server",
            ErrorCode::LdapCannotSearch => "can not search the LDAP server",
            ErrorCode::LdapCannotStartTls => "can not star a TLS LDAP session",
            ErrorCode::LdapFoundNoObjects => "LDAP didn't found any objects with the specified search query",
            ErrorCode::LdapNotOneUserFound => "LDAP found zero ore more than one user",
            ErrorCode::LdapUserNotIdentified => "LDAP found a user, but its not the desired one",
            ErrorCode::LdapInvalidMode => "cant distinguish a valid mode for provided ldap configuration",
            ErrorCode::TaskInvalidId => "Will be raised when a task is created with an invalid id.",
            ErrorCode::TaskDuplicateId => "Will be raised when a task id is created with a duplicate id.",
            ErrorCode::TaskNotFound => "Will be raised when a task with the specified id could not be found.",
            ErrorCode::GraphInvalidGraph => "Will be raised when an invalid name is passed to the server.",
            ErrorCode::GraphCouldNotCreateGraph => "Will be raised when an invalid name, vertices or edges is passed to the server.",
            ErrorCode::GraphInvalidVertex => "Will be raised when an invalid vertex id is passed to the server.",
            ErrorCode::GraphCouldNotCreateVertex => "Will be raised when the vertex could not be created.",
            ErrorCode::GraphCouldNotChangeVertex => "Will be raised when the vertex could not be changed.",
            ErrorCode::GraphInvalidEdge => "Will be raised when an invalid edge id is passed to the server.",
            ErrorCode::GraphCouldNotCreateEdge => "Will be raised when the edge could not be created.",
            ErrorCode::GraphCouldNotChangeEdge => "Will be raised when the edge could not be changed.",
            ErrorCode::GraphTooManyIterations => "Will be raised when too many iterations are done in a graph traversal.",
            ErrorCode::GraphInvalidFilterResult => "Will be raised when an invalid filter result is returned in a graph traversal.",
            ErrorCode::GraphCollectionMultiUse => "An edge collection may only be used once in one edge definition of a graph.",
            ErrorCode::GraphCollectionUseInMultiGraphs => "Is already used by another graph in a different edge definition.",
            ErrorCode::GraphCreateMissingName => "A graph name is required to create a graph.",
            ErrorCode::GraphCreateMalformedEdgeDefinition => "The edge definition is malformed. It has to be an array of objects.",
            ErrorCode::GraphNotFound => "A graph with this name could not be found.",
            ErrorCode::GraphDuplicate => "A graph with this name already exists.",
            ErrorCode::GraphVertexColDoesNotExist => "The specified vertex collection does not exist or is not part of the graph.",
            ErrorCode::GraphWrongCollectionTypeVertex => "The collection is not a vertex collection.",
            ErrorCode::GraphNotInOrphanCollection => "Vertex collection not in orphan collection of the graph.",
            ErrorCode::GraphCollectionUsedInEdgeDef => "The collection is already used in an edge definition of the graph.",
            ErrorCode::GraphEdgeCollectionNotUsed => "The edge collection is not used in any edge definition of the graph.",
            ErrorCode::GraphNotAnArangoCollection => "The collection is not an ArangoCollection.",
            ErrorCode::GraphNoGraphCollection => "Collection _graphs does not exist.",
            ErrorCode::GraphInvalidExampleArrayObjectString => "Invalid example type. Has to be String, Array or Object.",
            ErrorCode::GraphInvalidExampleArrayObject => "Invalid example type. Has to be Array or Object.",
            ErrorCode::GraphInvalidNumberOfArguments => "Invalid number of arguments. Expected: ",
            ErrorCode::GraphInvalidParameter => "Invalid parameter type.",
            ErrorCode::GraphInvalidId => "Invalid id",
            ErrorCode::GraphCollectionUsedInOrphans => "The collection is already used in the orphans of the graph.",
            ErrorCode::GraphEdgeColDoesNotExist => "The specified edge collection does not exist or is not part of the graph.",
            ErrorCode::GraphEmpty => "The requested graph has no edge collections.",
            ErrorCode::SessionUnknown => "Will be raised when an invalid/unknown session id is passed to the server.",
            ErrorCode::SessionExpired => "Will be raised when a session is expired.",
            ErrorCode::SimpleClientUnknownError => "This error should not happen.",
            ErrorCode::SimpleClientCouldNotConnect => "Will be raised when the client could not connect to the server.",
            ErrorCode::SimpleClientCouldNotWrite => "Will be raised when the client could not write data.",
            ErrorCode::SimpleClientCouldNotRead => "Will be raised when the client could not read data.",
            ErrorCode::CommunicatorRequestAborted => "Request was aborted.",
            ErrorCode::CommunicatorDisabled => "Communication was disabled.",
            ErrorCode::MalformedManifestFile => "The service manifest file is not well-formed JSON.",
            ErrorCode::InvalidServiceManifest => "The service manifest contains invalid values.",
            ErrorCode::ServiceFilesMissing => "The service folder or bundle does not exist on this server.",
            ErrorCode::ServiceFilesOutdated => "The local service bundle does not match the checksum in the database.",
            ErrorCode::InvalidFoxxOptions => "The service options contain invalid values.",
            ErrorCode::InvalidMountpoint => "The service mountpath contains invalid characters.",
            ErrorCode::ServiceNotFound => "No service found at the given mountpath.",
            ErrorCode::ServiceNeedsConfiguration => "The service is missing configuration or dependencies.",
            ErrorCode::ServiceMountpointConflict => "A service already exists at the given mountpath.",
            ErrorCode::ServiceManifestNotFound => "The service directory does not contain a manifest file.",
            ErrorCode::ServiceOptionsMalformed => "The service options are not well-formed JSON.",
            ErrorCode::ServiceSourceNotFound => "The source path does not match a file or directory.",
            ErrorCode::ServiceSourceError => "The source path could not be resolved.",
            ErrorCode::ServiceUnknownScript => "The service does not have a script with this name.",
            ErrorCode::ModuleNotFound => "The module path could not be resolved.",
            ErrorCode::ModuleSyntaxError => "The module could not be parsed because of a syntax error.",
            ErrorCode::ModuleFailure => "Failed to invoke the module in its context.",
            ErrorCode::NoSmartCollection => "The requested collection needs to be smart, but it ain't",
            ErrorCode::NoSmartGraphAttribute => "The given document does not have the smart graph attribute set.",
            ErrorCode::CannotDropSmartCollection => "This smart collection cannot be dropped, it dictates sharding in the graph.",
            ErrorCode::KeyMustBePrefixedWithSmartGraphAttribute => "In a smart vertex collection _key must be prefixed with the value of the smart graph attribute.",
            ErrorCode::IllegalSmartGraphAttribute => "The given smartGraph attribute is illegal and connot be used for sharding. All system attributes are forbidden.",
            ErrorCode::AgencyInquirySyntax => "Inquiry handles a list of string clientIds: [,...].",
            ErrorCode::AgencyInformMustBeObject => "The inform message in the agency must be an object.",
            ErrorCode::AgencyInformMustContainTerm => "The inform message in the agency must contain a uint parameter 'term'.",
            ErrorCode::AgencyInformMustContainId => "The inform message in the agency must contain a string parameter 'id'.",
            ErrorCode::AgencyInformMustContainActive => "The inform message in the agency must contain an array 'active'.",
            ErrorCode::AgencyInformMustContainPool => "The inform message in the agency must contain an object 'pool'.",
            ErrorCode::AgencyInformMustContainMinPing => "The inform message in the agency must contain an object 'min ping'.",
            ErrorCode::AgencyInformMustContainMaxPing => "The inform message in the agency must contain an object 'max ping'.",
            ErrorCode::AgencyInformMustContainTimeoutMult => "The inform message in the agency must contain an object 'timeoutMult'.",
            ErrorCode::AgencyInquireClientIdMustBeString => "Inquiry by clientId failed",
            ErrorCode::AgencyCannotRebuildDbs => "Will be raised if the readDB or the spearHead cannot be rebuilt from the replicated log.",
            ErrorCode::SupervisionGeneralFailure => "General supervision failure.",
            ErrorCode::DispatcherIsStopping => "Will be returned if a shutdown is in progress.",
            ErrorCode::QueueUnknown => "Will be returned if a queue with this name does not exist.",
            ErrorCode::QueueFull => "Will be returned if a queue with this name is full.",
            ErrorCode::UnknownError => "An error occurred that is not known by the driver.",
        }
    }

    /// The display text, `Error Code <number>: <description>`.
    pub fn to_string(&self) -> (r: String)
        ensures
            r@ == "Error Code "@ + decimal_text(error_code_value(*self) as nat) + ": "@
                + error_code_description(*self),
    {
        let mut r = "Error Code ".to_owned();
        let n = u64_to_text(self.as_u16() as u64);
        r.append(n.as_str());
        r.append(": ");
        r.append(self.description());
        r
    }
}

/// Looking up the number of an error code gives back the error code.
pub proof fn lemma_error_code_round_trip(code: ErrorCode)
    ensures
        error_code_of(error_code_value(code)) == code,
{
}

/// A number that names a listed error code is the number of that code.
pub proof fn lemma_error_value_round_trip(value: u16)
    requires
        error_code_of(value) != ErrorCode::UnknownError,
    ensures
        error_code_value(error_code_of(value)) == value,
{
}

/// Each error code has the number ArangoDB documents for it; a code the
/// library does not know has the number `u16::MAX`.
pub proof fn lemma_error_code_numbers()
    ensures
        error_code_value(ErrorCode::NoError) == 0,
        error_code_value(ErrorCode::Failed) == 1,
        error_code_value(ErrorCode::SysError) == 2,
        error_code_value(ErrorCode::OutOfMemory) == 3,
        error_code_value(ErrorCode::Internal) == 4,
        error_code_value(ErrorCode::IllegalNumber) == 5,
        error_code_value(ErrorCode::NumericOverflow) == 6,
        error_code_value(ErrorCode::IllegalOption) == 7,
        error_code_value(ErrorCode::DeadPid) == 8,
        error_code_value(ErrorCode::NotImplemented) == 9,
        error_code_value(ErrorCode::BadParameter) == 10,
        error_code_value(ErrorCode::Forbidden) == 11,
        error_code_value(ErrorCode::OutOfMemoryMmap) == 12,
        error_code_value(ErrorCode::CorruptedCsv) == 13,
        error_code_value(ErrorCode::FileNotFound) == 14,
        error_code_value(ErrorCode::CannotWriteFile) == 15,
        error_code_value(ErrorCode::CannotOverwriteFile) == 16,
        error_code_value(ErrorCode::TypeError) == 17,
        error_code_value(ErrorCode::LockTimeout) == 18,
        error_code_value(ErrorCode::CannotCreateDirectory) == 19,
        error_code_value(ErrorCode::CannotCreateTempFile) == 20,
        error_code_value(ErrorCode::RequestCanceled) == 21,
        error_code_value(ErrorCode::Debug) == 22,
        error_code_value(ErrorCode::IpAddressInvalid) == 25,
        error_code_value(ErrorCode::FileExists) == 27,
        error_code_value(ErrorCode::Locked) == 28,
        error_code_value(ErrorCode::Deadlock) == 29,
        error_code_value(ErrorCode::ShuttingDown) == 30,
        error_code_value(ErrorCode::OnlyEnterprise) == 31,
        error_code_value(ErrorCode::ResourceLimit) == 32,
        error_code_value(ErrorCode::HttpBadParameter) == 400,
        error_code_value(ErrorCode::HttpUnauthorized) == 401,
        error_code_value(ErrorCode::HttpForbidden) == 403,
        error_code_value(ErrorCode::HttpNotFound) == 404,
        error_code_value(ErrorCode::HttpMethodNotAllowed) == 405,
        error_code_value(ErrorCode::HttpNotAcceptable) == 406,
        error_code_value(ErrorCode::HttpConflict) == 409,
        error_code_value(ErrorCode::HttpPreconditionFailed) == 412,
        error_code_value(ErrorCode::HttpServerError) == 500,
        error_code_value(ErrorCode::HttpServiceUnavailable) == 503,
        error_code_value(ErrorCode::HttpCorruptedJson) == 600,
        error_code_value(ErrorCode::HttpSuperfluousSuffices) == 601,
        error_code_value(ErrorCode::ArangoIllegalState) == 1000,
        error_code_value(ErrorCode::ArangoDatafileSealed) == 1002,
        error_code_value(ErrorCode::ArangoReadOnly) == 1004,
        error_code_value(ErrorCode::ArangoDuplicateIdentifier) == 1005,
        error_code_value(ErrorCode::ArangoDatafileUnreadable) == 1006,
        error_code_value(ErrorCode::ArangoDatafileEmpty) == 1007,
        error_code_value(ErrorCode::ArangoRecovery) == 1008,
        error_code_value(ErrorCode::ArangoDatafileStatisticsNotFound) == 1009,
        error_code_value(ErrorCode::ArangoCorruptedDatafile) == 1100,
        error_code_value(ErrorCode::ArangoIllegalParameterFile) == 1101,
        error_code_value(ErrorCode::ArangoCorruptedCollection) == 1102,
        error_code_value(ErrorCode::ArangoMmapFailed) == 1103,
        error_code_value(ErrorCode::ArangoFilesystemFull) == 1104,
        error_code_value(ErrorCode::ArangoNoJournal) == 1105,
        error_code_value(ErrorCode::ArangoDatafileAlreadyExists) == 1106,
        error_code_value(ErrorCode::ArangoDatadirLocked) == 1107,
        error_code_value(ErrorCode::ArangoCollectionDirectoryAlreadyExists) == 1108,
        error_code_value(ErrorCode::ArangoMsyncFailed) == 1109,
        error_code_value(ErrorCode::ArangoDatadirUnlockable) == 1110,
        error_code_value(ErrorCode::ArangoSyncTimeout) == 1111,
        error_code_value(ErrorCode::ArangoConflict) == 1200,
        error_code_value(ErrorCode::ArangoDatadirInvalid) == 1201,
        error_code_value(ErrorCode::ArangoDocumentNotFound) == 1202,
        error_code_value(ErrorCode::ArangoCollectionNotFound) == 1203,
        error_code_value(ErrorCode::ArangoCollectionParameterMissing) == 1204,
        error_code_value(ErrorCode::ArangoDocumentHandleBad) == 1205,
        error_code_value(ErrorCode::ArangoMaximalSizeTooSmall) == 1206,
        error_code_value(ErrorCode::ArangoDuplicateName) == 1207,
        error_code_value(ErrorCode::ArangoIllegalName) == 1208,
        error_code_value(ErrorCode::ArangoNoIndex) == 1209,
        error_code_value(ErrorCode::ArangoUniqueConstraintViolated) == 1210,
        error_code_value(ErrorCode::ArangoViewNotFound) == 1211,
        error_code_value(ErrorCode::ArangoIndexNotFound) == 1212,
        error_code_value(ErrorCode::ArangoCrossCollectionRequest) == 1213,
        error_code_value(ErrorCode::ArangoIndexHandleBad) == 1214,
        error_code_value(ErrorCode::ArangoDocumentTooLarge) == 1216,
        error_code_value(ErrorCode::ArangoCollectionNotUnloaded) == 1217,
        error_code_value(ErrorCode::ArangoCollectionTypeInvalid) == 1218,
        error_code_value(ErrorCode::ArangoValidationFailed) == 1219,
        error_code_value(ErrorCode::ArangoAttributeParserFailed) == 1220,
        error_code_value(ErrorCode::ArangoDocumentKeyBad) == 1221,
        error_code_value(ErrorCode::ArangoDocumentKeyUnexpected) == 1222,
        error_code_value(ErrorCode::ArangoDatadirNotWritable) == 1224,
        error_code_value(ErrorCode::ArangoOutOfKeys) == 1225,
        error_code_value(ErrorCode::ArangoDocumentKeyMissing) == 1226,
        error_code_value(ErrorCode::ArangoDocumentTypeInvalid) == 1227,
        error_code_value(ErrorCode::ArangoDatabaseNotFound) == 1228,
        error_code_value(ErrorCode::ArangoDatabaseNameInvalid) == 1229,
        error_code_value(ErrorCode::ArangoUseSystemDatabase) == 1230,
        error_code_value(ErrorCode::ArangoEndpointNotFound) == 1231,
        error_code_value(ErrorCode::ArangoInvalidKeyGenerator) == 1232,
        error_code_value(ErrorCode::ArangoInvalidEdgeAttribute) == 1233,
        error_code_value(ErrorCode::ArangoIndexDocumentAttributeMissing) == 1234,
        error_code_value(ErrorCode::ArangoIndexCreationFailed) == 1235,
        error_code_value(ErrorCode::ArangoWriteThrottleTimeout) == 1236,
        error_code_value(ErrorCode::ArangoCollectionTypeMismatch) == 1237,
        error_code_value(ErrorCode::ArangoCollectionNotLoaded) == 1238,
        error_code_value(ErrorCode::ArangoDocumentRevBad) == 1239,
        error_code_value(ErrorCode::ArangoDatafileFull) == 1300,
        error_code_value(ErrorCode::ArangoEmptyDatadir) == 1301,
        error_code_value(ErrorCode::ArangoTryAgain) == 1302,
        error_code_value(ErrorCode::ArangoBusy) == 1303,
        error_code_value(ErrorCode::ArangoMergeInProgress) == 1304,
        error_code_value(ErrorCode::ArangoIoError) == 1305,
        error_code_value(ErrorCode::ReplicationNoResponse) == 1400,
        error_code_value(ErrorCode::ReplicationInvalidResponse) == 1401,
        error_code_value(ErrorCode::ReplicationMasterError) == 1402,
        error_code_value(ErrorCode::ReplicationMasterIncompatible) == 1403,
        error_code_value(ErrorCode::ReplicationMasterChange) == 1404,
        error_code_value(ErrorCode::ReplicationLoop) == 1405,
        error_code_value(ErrorCode::ReplicationUnexpectedMarker) == 1406,
        error_code_value(ErrorCode::ReplicationInvalidApplierState) == 1407,
        error_code_value(ErrorCode::ReplicationUnexpectedTransaction) == 1408,
        error_code_value(ErrorCode::ReplicationInvalidApplierConfiguration) == 1410,
        error_code_value(ErrorCode::ReplicationRunning) == 1411,
        error_code_value(ErrorCode::ReplicationApplierStopped) == 1412,
        error_code_value(ErrorCode::ReplicationNoStartTick) == 1413,
        error_code_value(ErrorCode::ReplicationStartTickNotPresent) == 1414,
        error_code_value(ErrorCode::ReplicationWrongChecksumFormat) == 1415,
        error_code_value(ErrorCode::ReplicationWrongChecksum) == 1416,
        error_code_value(ErrorCode::ClusterNoAgency) == 1450,
        error_code_value(ErrorCode::ClusterNoCoordinatorHeader) == 1451,
        error_code_value(ErrorCode::ClusterCouldNotLockPlan) == 1452,
        error_code_value(ErrorCode::ClusterCollectionIdExists) == 1453,
        error_code_value(ErrorCode::ClusterCouldNotCreateCollectionInPlan) == 1454,
        error_code_value(ErrorCode::ClusterCouldNotReadCurrentVersion) == 1455,
        error_code_value(ErrorCode::ClusterCouldNotCreateCollection) == 1456,
        error_code_value(ErrorCode::ClusterTimeout) == 1457,
        error_code_value(ErrorCode::ClusterCouldNotRemoveCollectionInPlan) == 1458,
        error_code_value(ErrorCode::ClusterCouldNotRemoveCollectionInCurrent) == 1459,
        error_code_value(ErrorCode::ClusterCouldNotCreateDatabaseInPlan) == 1460,
        error_code_value(ErrorCode::ClusterCouldNotCreateDatabase) == 1461,
        error_code_value(ErrorCode::ClusterCouldNotRemoveDatabaseInPlan) == 1462,
        error_code_value(ErrorCode::ClusterCouldNotRemoveDatabaseInCurrent) == 1463,
        error_code_value(ErrorCode::ClusterShardGone) == 1464,
        error_code_value(ErrorCode::ClusterConnectionLost) == 1465,
        error_code_value(ErrorCode::ClusterMustNotSpecifyKey) == 1466,
        error_code_value(ErrorCode::ClusterGotContradictingAnswers) == 1467,
        error_code_value(ErrorCode::ClusterNotAllShardingAttributesGiven) == 1468,
        error_code_value(ErrorCode::ClusterMustNotChangeShardingAttributes) == 1469,
        error_code_value(ErrorCode::ClusterUnsupported) == 1470,
        error_code_value(ErrorCode::ClusterOnlyOnCoordinator) == 1471,
        error_code_value(ErrorCode::ClusterReadingPlanAgency) == 1472,
        error_code_value(ErrorCode::ClusterCouldNotTruncateCollection) == 1473,
        error_code_value(ErrorCode::ClusterAqlCommunication) == 1474,
        error_code_value(ErrorCode::ArangoDocumentNotFoundOrShardingAttributesChanged) == 1475,
        error_code_value(ErrorCode::ClusterCouldNotDetermineId) == 1476,
        error_code_value(ErrorCode::ClusterOnlyOnDbserver) == 1477,
        error_code_value(ErrorCode::ClusterBackendUnavailable) == 1478,
        error_code_value(ErrorCode::ClusterUnknownCallbackEndpoint) == 1479,
        error_code_value(ErrorCode::ClusterAgencyStructureInvalid) == 1480,
        error_code_value(ErrorCode::ClusterAqlCollectionOutOfSync) == 1481,
        error_code_value(ErrorCode::ClusterCouldNotCreateIndexInPlan) == 1482,
        error_code_value(ErrorCode::ClusterCouldNotDropIndexInPlan) == 1483,
        error_code_value(ErrorCode::ClusterChainOfDistributeshardslike) == 1484,
        error_code_value(ErrorCode::ClusterMustNotDropCollOtherDistributeshardslike) == 1485,
        error_code_value(ErrorCode::ClusterUnknownDistributeshardslike) == 1486,
        error_code_value(ErrorCode::ClusterInsufficientDbservers) == 1487,
        error_code_value(ErrorCode::ClusterCouldNotDropFollower) == 1488,
        error_code_value(ErrorCode::ClusterShardLeaderRefusesReplication) == 1489,
        error_code_value(ErrorCode::ClusterShardFollowerRefusesOperation) == 1490,
        error_code_value(ErrorCode::ClusterShardLeaderResigned) == 1491,
        error_code_value(ErrorCode::ClusterAgencyCommunicationFailed) == 1492,
        error_code_value(ErrorCode::ClusterDistributeShardsLikeReplicationFactor) == 1493,
        error_code_value(ErrorCode::ClusterDistributeShardsLikeNumberOfShards) == 1494,
        error_code_value(ErrorCode::QueryKilled) == 1500,
        error_code_value(ErrorCode::QueryParse) == 1501,
        error_code_value(ErrorCode::QueryEmpty) == 1502,
        error_code_value(ErrorCode::QueryScript) == 1503,
        error_code_value(ErrorCode::QueryNumberOutOfRange) == 1504,
        error_code_value(ErrorCode::QueryVariableNameInvalid) == 1510,
        error_code_value(ErrorCode::QueryVariableRedeclared) == 1511,
        error_code_value(ErrorCode::QueryVariableNameUnknown) == 1512,
        error_code_value(ErrorCode::QueryCollectionLockFailed) == 1521,
        error_code_value(ErrorCode::QueryTooManyCollections) == 1522,
        error_code_value(ErrorCode::QueryDocumentAttributeRedeclared) == 1530,
        error_code_value(ErrorCode::QueryFunctionNameUnknown) == 1540,
        error_code_value(ErrorCode::QueryFunctionArgumentNumberMismatch) == 1541,
        error_code_value(ErrorCode::QueryFunctionArgumentTypeMismatch) == 1542,
        error_code_value(ErrorCode::QueryInvalidRegex) == 1543,
        error_code_value(ErrorCode::QueryBindParametersInvalid) == 1550,
        error_code_value(ErrorCode::QueryBindParameterMissing) == 1551,
        error_code_value(ErrorCode::QueryBindParameterUndeclared) == 1552,
        error_code_value(ErrorCode::QueryBindParameterType) == 1553,
        error_code_value(ErrorCode::QueryInvalidLogicalValue) == 1560,
        error_code_value(ErrorCode::QueryInvalidArithmeticValue) == 1561,
        error_code_value(ErrorCode::QueryDivisionByZero) == 1562,
        error_code_value(ErrorCode::QueryArrayExpected) == 1563,
        error_code_value(ErrorCode::QueryFailCalled) == 1569,
        error_code_value(ErrorCode::QueryGeoIndexMissing) == 1570,
        error_code_value(ErrorCode::QueryFulltextIndexMissing) == 1571,
        error_code_value(ErrorCode::QueryInvalidDateValue) == 1572,
        error_code_value(ErrorCode::QueryMultiModify) == 1573,
        error_code_value(ErrorCode::QueryInvalidAggregateExpression) == 1574,
        error_code_value(ErrorCode::QueryCompileTimeOptions) == 1575,
        error_code_value(ErrorCode::QueryExceptionOptions) == 1576,
        error_code_value(ErrorCode::QueryCollectionUsedInExpression) == 1577,
        error_code_value(ErrorCode::QueryDisallowedDynamicCall) == 1578,
        error_code_value(ErrorCode::QueryAccessAfterModification) == 1579,
        error_code_value(ErrorCode::QueryFunctionInvalidName) == 1580,
        error_code_value(ErrorCode::QueryFunctionInvalidCode) == 1581,
        error_code_value(ErrorCode::QueryFunctionNotFound) == 1582,
        error_code_value(ErrorCode::QueryFunctionRuntimeError) == 1583,
        error_code_value(ErrorCode::QueryBadJsonPlan) == 1590,
        error_code_value(ErrorCode::QueryNotFound) == 1591,
        error_code_value(ErrorCode::QueryInUse) == 1592,
        error_code_value(ErrorCode::CursorNotFound) == 1600,
        error_code_value(ErrorCode::CursorBusy) == 1601,
        error_code_value(ErrorCode::TransactionInternal) == 1650,
        error_code_value(ErrorCode::TransactionNested) == 1651,
        error_code_value(ErrorCode::TransactionUnregisteredCollection) == 1652,
        error_code_value(ErrorCode::TransactionDisallowedOperation) == 1653,
        error_code_value(ErrorCode::TransactionAborted) == 1654,
        error_code_value(ErrorCode::UserInvalidName) == 1700,
        error_code_value(ErrorCode::UserInvalidPassword) == 1701,
        error_code_value(ErrorCode::UserDuplicate) == 1702,
        error_code_value(ErrorCode::UserNotFound) == 1703,
        error_code_value(ErrorCode::UserChangePassword) == 1704,
        error_code_value(ErrorCode::ServiceInvalidName) == 1750,
        error_code_value(ErrorCode::ServiceInvalidMount) == 1751,
        error_code_value(ErrorCode::ServiceDownloadFailed) == 1752,
        error_code_value(ErrorCode::ServiceUploadFailed) == 1753,
        error_code_value(ErrorCode::LdapCannotInit) == 1800,
        error_code_value(ErrorCode::LdapCannotSetOption) == 1801,
        error_code_value(ErrorCode::LdapCannotBind) == 1802,
        error_code_value(ErrorCode::LdapCannotUnbind) == 1803,
        error_code_value(ErrorCode::LdapCannotSearch) == 1804,
        error_code_value(ErrorCode::LdapCannotStartTls) == 1805,
        error_code_value(ErrorCode::LdapFoundNoObjects) == 1806,
        error_code_value(ErrorCode::LdapNotOneUserFound) == 1807,
        error_code_value(ErrorCode::LdapUserNotIdentified) == 1808,
        error_code_value(ErrorCode::LdapInvalidMode) == 1820,
        error_code_value(ErrorCode::TaskInvalidId) == 1850,
        error_code_value(ErrorCode::TaskDuplicateId) == 1851,
        error_code_value(ErrorCode::TaskNotFound) == 1852,
        error_code_value(ErrorCode::GraphInvalidGraph) == 1901,
        error_code_value(ErrorCode::GraphCouldNotCreateGraph) == 1902,
        error_code_value(ErrorCode::GraphInvalidVertex) == 1903,
        error_code_value(ErrorCode::GraphCouldNotCreateVertex) == 1904,
        error_code_value(ErrorCode::GraphCouldNotChangeVertex) == 1905,
        error_code_value(ErrorCode::GraphInvalidEdge) == 1906,
        error_code_value(ErrorCode::GraphCouldNotCreateEdge) == 1907,
        error_code_value(ErrorCode::GraphCouldNotChangeEdge) == 1908,
        error_code_value(ErrorCode::GraphTooManyIterations) == 1909,
        error_code_value(ErrorCode::GraphInvalidFilterResult) == 1910,
        error_code_value(ErrorCode::GraphCollectionMultiUse) == 1920,
        error_code_value(ErrorCode::GraphCollectionUseInMultiGraphs) == 1921,
        error_code_value(ErrorCode::GraphCreateMissingName) == 1922,
        error_code_value(ErrorCode::GraphCreateMalformedEdgeDefinition) == 1923,
        error_code_value(ErrorCode::GraphNotFound) == 1924,
        error_code_value(ErrorCode::GraphDuplicate) == 1925,
        error_code_value(ErrorCode::GraphVertexColDoesNotExist) == 1926,
        error_code_value(ErrorCode::GraphWrongCollectionTypeVertex) == 1927,
        error_code_value(ErrorCode::GraphNotInOrphanCollection) == 1928,
        error_code_value(ErrorCode::GraphCollectionUsedInEdgeDef) == 1929,
        error_code_value(ErrorCode::GraphEdgeCollectionNotUsed) == 1930,
        error_code_value(ErrorCode::GraphNotAnArangoCollection) == 1931,
        error_code_value(ErrorCode::GraphNoGraphCollection) == 1932,
        error_code_value(ErrorCode::GraphInvalidExampleArrayObjectString) == 1933,
        error_code_value(ErrorCode::GraphInvalidExampleArrayObject) == 1934,
        error_code_value(ErrorCode::GraphInvalidNumberOfArguments) == 1935,
        error_code_value(ErrorCode::GraphInvalidParameter) == 1936,
        error_code_value(ErrorCode::GraphInvalidId) == 1937,
        error_code_value(ErrorCode::GraphCollectionUsedInOrphans) == 1938,
        error_code_value(ErrorCode::GraphEdgeColDoesNotExist) == 1939,
        error_code_value(ErrorCode::GraphEmpty) == 1940,
        error_code_value(ErrorCode::SessionUnknown) == 1950,
        error_code_value(ErrorCode::SessionExpired) == 1951,
        error_code_value(ErrorCode::SimpleClientUnknownError) == 2000,
        error_code_value(ErrorCode::SimpleClientCouldNotConnect) == 2001,
        error_code_value(ErrorCode::SimpleClientCouldNotWrite) == 2002,
        error_code_value(ErrorCode::SimpleClientCouldNotRead) == 2003,
        error_code_value(ErrorCode::CommunicatorRequestAborted) == 2100,
        error_code_value(ErrorCode::CommunicatorDisabled) == 2101,
        error_code_value(ErrorCode::MalformedManifestFile) == 3000,
        error_code_value(ErrorCode::InvalidServiceManifest) == 3001,
        error_code_value(ErrorCode::ServiceFilesMissing) == 3002,
        error_code_value(ErrorCode::ServiceFilesOutdated) == 3003,
        error_code_value(ErrorCode::InvalidFoxxOptions) == 3004,
        error_code_value(ErrorCode::InvalidMountpoint) == 3007,
        error_code_value(ErrorCode::ServiceNotFound) == 3009,
        error_code_value(ErrorCode::ServiceNeedsConfiguration) == 3010,
        error_code_value(ErrorCode::ServiceMountpointConflict) == 3011,
        error_code_value(ErrorCode::ServiceManifestNotFound) == 3012,
        error_code_value(ErrorCode::ServiceOptionsMalformed) == 3013,
        error_code_value(ErrorCode::ServiceSourceNotFound) == 3014,
        error_code_value(ErrorCode::ServiceSourceError) == 3015,
        error_code_value(ErrorCode::ServiceUnknownScript) == 3016,
        error_code_value(ErrorCode::ModuleNotFound) == 3100,
        error_code_value(ErrorCode::ModuleSyntaxError) == 3101,
        error_code_value(ErrorCode::ModuleFailure) == 3103,
        error_code_value(ErrorCode::NoSmartCollection) == 4000,
        error_code_value(ErrorCode::NoSmartGraphAttribute) == 4001,
        error_code_value(ErrorCode::CannotDropSmartCollection) == 4002,
        error_code_value(ErrorCode::KeyMustBePrefixedWithSmartGraphAttribute) == 4003,
        error_code_value(ErrorCode::IllegalSmartGraphAttribute) == 4004,
        error_code_value(ErrorCode::AgencyInquirySyntax) == 20001,
        error_code_value(ErrorCode::AgencyInformMustBeObject) == 20011,
        error_code_value(ErrorCode::AgencyInformMustContainTerm) == 20012,
        error_code_value(ErrorCode::AgencyInformMustContainId) == 20013,
        error_code_value(ErrorCode::AgencyInformMustContainActive) == 20014,
        error_code_value(ErrorCode::AgencyInformMustContainPool) == 20015,
        error_code_value(ErrorCode::AgencyInformMustContainMinPing) == 20016,
        error_code_value(ErrorCode::AgencyInformMustContainMaxPing) == 20017,
        error_code_value(ErrorCode::AgencyInformMustContainTimeoutMult) == 20018,
        error_code_value(ErrorCode::AgencyInquireClientIdMustBeString) == 20020,
        error_code_value(ErrorCode::AgencyCannotRebuildDbs) == 20021,
        error_code_value(ErrorCode::SupervisionGeneralFailure) == 20501,
        error_code_value(ErrorCode::DispatcherIsStopping) == 21001,
        error_code_value(ErrorCode::QueueUnknown) == 21002,
        error_code_value(ErrorCode::QueueFull) == 21003,
        error_code_value(ErrorCode::UnknownError) == 0xffff,
{
}

/// Each number ArangoDB documents names its error code.
pub proof fn lemma_error_code_of_numbers()
    ensures
        error_code_of(0) == ErrorCode::NoError,
        error_code_of(1) == ErrorCode::Failed,
        error_code_of(2) == ErrorCode::SysError,
        error_code_of(3) == ErrorCode::OutOfMemory,
        error_code_of(4) == ErrorCode::Internal,
        error_code_of(5) == ErrorCode::IllegalNumber,
        error_code_of(6) == ErrorCode::NumericOverflow,
        error_code_of(7) == ErrorCode::IllegalOption,
        error_code_of(8) == ErrorCode::DeadPid,
        error_code_of(9) == ErrorCode::NotImplemented,
        error_code_of(10) == ErrorCode::BadParameter,
        error_code_of(11) == ErrorCode::Forbidden,
        error_code_of(12) == ErrorCode::OutOfMemoryMmap,
        error_code_of(13) == ErrorCode::CorruptedCsv,
        error_code_of(14) == ErrorCode::FileNotFound,
        error_code_of(15) == ErrorCode::CannotWriteFile,
        error_code_of(16) == ErrorCode::CannotOverwriteFile,
        error_code_of(17) == ErrorCode::TypeError,
        error_code_of(18) == ErrorCode::LockTimeout,
        error_code_of(19) == ErrorCode::CannotCreateDirectory,
        error_code_of(20) == ErrorCode::CannotCreateTempFile,
        error_code_of(21) == ErrorCode::RequestCanceled,
        error_code_of(22) == ErrorCode::Debug,
        error_code_of(25) == ErrorCode::IpAddressInvalid,
        error_code_of(27) == ErrorCode::FileExists,
        error_code_of(28) == ErrorCode::Locked,
        error_code_of(29) == ErrorCode::Deadlock,
        error_code_of(30) == ErrorCode::ShuttingDown,
        error_code_of(31) == ErrorCode::OnlyEnterprise,
        error_code_of(32) == ErrorCode::ResourceLimit,
        error_code_of(400) == ErrorCode::HttpBadParameter,
        error_code_of(401) == ErrorCode::HttpUnauthorized,
        error_code_of(403) == ErrorCode::HttpForbidden,
        error_code_of(404) == ErrorCode::HttpNotFound,
        error_code_of(405) == ErrorCode::HttpMethodNotAllowed,
        error_code_of(406) == ErrorCode::HttpNotAcceptable,
        error_code_of(409) == ErrorCode::HttpConflict,
        error_code_of(412) == ErrorCode::HttpPreconditionFailed,
        error_code_of(500) == ErrorCode::HttpServerError,
        error_code_of(503) == ErrorCode::HttpServiceUnavailable,
        error_code_of(600) == ErrorCode::HttpCorruptedJson,
        error_code_of(601) == ErrorCode::HttpSuperfluousSuffices,
        error_code_of(1000) == ErrorCode::ArangoIllegalState,
        error_code_of(1002) == ErrorCode::ArangoDatafileSealed,
        error_code_of(1004) == ErrorCode::ArangoReadOnly,
        error_code_of(1005) == ErrorCode::ArangoDuplicateIdentifier,
        error_code_of(1006) == ErrorCode::ArangoDatafileUnreadable,
        error_code_of(1007) == ErrorCode::ArangoDatafileEmpty,
        error_code_of(1008) == ErrorCode::ArangoRecovery,
        error_code_of(1009) == ErrorCode::ArangoDatafileStatisticsNotFound,
        error_code_of(1100) == ErrorCode::ArangoCorruptedDatafile,
        error_code_of(1101) == ErrorCode::ArangoIllegalParameterFile,
        error_code_of(1102) == ErrorCode::ArangoCorruptedCollection,
        error_code_of(1103) == ErrorCode::ArangoMmapFailed,
        error_code_of(1104) == ErrorCode::ArangoFilesystemFull,
        error_code_of(1105) == ErrorCode::ArangoNoJournal,
        error_code_of(1106) == ErrorCode::ArangoDatafileAlreadyExists,
        error_code_of(1107) == ErrorCode::ArangoDatadirLocked,
        error_code_of(1108) == ErrorCode::ArangoCollectionDirectoryAlreadyExists,
        error_code_of(1109) == ErrorCode::ArangoMsyncFailed,
        error_code_of(1110) == ErrorCode::ArangoDatadirUnlockable,
        error_code_of(1111) == ErrorCode::ArangoSyncTimeout,
        error_code_of(1200) == ErrorCode::ArangoConflict,
        error_code_of(1201) == ErrorCode::ArangoDatadirInvalid,
        error_code_of(1202) == ErrorCode::ArangoDocumentNotFound,
        error_code_of(1203) == ErrorCode::ArangoCollectionNotFound,
        error_code_of(1204) == ErrorCode::ArangoCollectionParameterMissing,
        error_code_of(1205) == ErrorCode::ArangoDocumentHandleBad,
        error_code_of(1206) == ErrorCode::ArangoMaximalSizeTooSmall,
        error_code_of(1207) == ErrorCode::ArangoDuplicateName,
        error_code_of(1208) == ErrorCode::ArangoIllegalName,
        error_code_of(1209) == ErrorCode::ArangoNoIndex,
        error_code_of(1210) == ErrorCode::ArangoUniqueConstraintViolated,
        error_code_of(1211) == ErrorCode::ArangoViewNotFound,
        error_code_of(1212) == ErrorCode::ArangoIndexNotFound,
        error_code_of(1213) == ErrorCode::ArangoCrossCollectionRequest,
        error_code_of(1214) == ErrorCode::ArangoIndexHandleBad,
        error_code_of(1216) == ErrorCode::ArangoDocumentTooLarge,
        error_code_of(1217) == ErrorCode::ArangoCollectionNotUnloaded,
        error_code_of(1218) == ErrorCode::ArangoCollectionTypeInvalid,
        error_code_of(1219) == ErrorCode::ArangoValidationFailed,
        error_code_of(1220) == ErrorCode::ArangoAttributeParserFailed,
        error_code_of(1221) == ErrorCode::ArangoDocumentKeyBad,
        error_code_of(1222) == ErrorCode::ArangoDocumentKeyUnexpected,
        error_code_of(1224) == ErrorCode::ArangoDatadirNotWritable,
        error_code_of(1225) == ErrorCode::ArangoOutOfKeys,
        error_code_of(1226) == ErrorCode::ArangoDocumentKeyMissing,
        error_code_of(1227) == ErrorCode::ArangoDocumentTypeInvalid,
        error_code_of(1228) == ErrorCode::ArangoDatabaseNotFound,
        error_code_of(1229) == ErrorCode::ArangoDatabaseNameInvalid,
        error_code_of(1230) == ErrorCode::ArangoUseSystemDatabase,
        error_code_of(1231) == ErrorCode::ArangoEndpointNotFound,
        error_code_of(1232) == ErrorCode::ArangoInvalidKeyGenerator,
        error_code_of(1233) == ErrorCode::ArangoInvalidEdgeAttribute,
        error_code_of(1234) == ErrorCode::ArangoIndexDocumentAttributeMissing,
        error_code_of(1235) == ErrorCode::ArangoIndexCreationFailed,
        error_code_of(1236) == ErrorCode::ArangoWriteThrottleTimeout,
        error_code_of(1237) == ErrorCode::ArangoCollectionTypeMismatch,
        error_code_of(1238) == ErrorCode::ArangoCollectionNotLoaded,
        error_code_of(1239) == ErrorCode::ArangoDocumentRevBad,
        error_code_of(1300) == ErrorCode::ArangoDatafileFull,
        error_code_of(1301) == ErrorCode::ArangoEmptyDatadir,
        error_code_of(1302) == ErrorCode::ArangoTryAgain,
        error_code_of(1303) == ErrorCode::ArangoBusy,
        error_code_of(1304) == ErrorCode::ArangoMergeInProgress,
        error_code_of(1305) == ErrorCode::ArangoIoError,
        error_code_of(1400) == ErrorCode::ReplicationNoResponse,
        error_code_of(1401) == ErrorCode::ReplicationInvalidResponse,
        error_code_of(1402) == ErrorCode::ReplicationMasterError,
        error_code_of(1403) == ErrorCode::ReplicationMasterIncompatible,
        error_code_of(1404) == ErrorCode::ReplicationMasterChange,
        error_code_of(1405) == ErrorCode::ReplicationLoop,
        error_code_of(1406) == ErrorCode::ReplicationUnexpectedMarker,
        error_code_of(1407) == ErrorCode::ReplicationInvalidApplierState,
        error_code_of(1408) == ErrorCode::ReplicationUnexpectedTransaction,
        error_code_of(1410) == ErrorCode::ReplicationInvalidApplierConfiguration,
        error_code_of(1411) == ErrorCode::ReplicationRunning,
        error_code_of(1412) == ErrorCode::ReplicationApplierStopped,
        error_code_of(1413) == ErrorCode::ReplicationNoStartTick,
        error_code_of(1414) == ErrorCode::ReplicationStartTickNotPresent,
        error_code_of(1415) == ErrorCode::ReplicationWrongChecksumFormat,
        error_code_of(1416) == ErrorCode::ReplicationWrongChecksum,
        error_code_of(1450) == ErrorCode::ClusterNoAgency,
        error_code_of(1451) == ErrorCode::ClusterNoCoordinatorHeader,
        error_code_of(1452) == ErrorCode::ClusterCouldNotLockPlan,
        error_code_of(1453) == ErrorCode::ClusterCollectionIdExists,
        error_code_of(1454) == ErrorCode::ClusterCouldNotCreateCollectionInPlan,
        error_code_of(1455) == ErrorCode::ClusterCouldNotReadCurrentVersion,
        error_code_of(1456) == ErrorCode::ClusterCouldNotCreateCollection,
        error_code_of(1457) == ErrorCode::ClusterTimeout,
        error_code_of(1458) == ErrorCode::ClusterCouldNotRemoveCollectionInPlan,
        error_code_of(1459) == ErrorCode::ClusterCouldNotRemoveCollectionInCurrent,
        error_code_of(1460) == ErrorCode::ClusterCouldNotCreateDatabaseInPlan,
        error_code_of(1461) == ErrorCode::ClusterCouldNotCreateDatabase,
        error_code_of(1462) == ErrorCode::ClusterCouldNotRemoveDatabaseInPlan,
        error_code_of(1463) == ErrorCode::ClusterCouldNotRemoveDatabaseInCurrent,
        error_code_of(1464) == ErrorCode::ClusterShardGone,
        error_code_of(1465) == ErrorCode::ClusterConnectionLost,
        error_code_of(1466) == ErrorCode::ClusterMustNotSpecifyKey,
        error_code_of(1467) == ErrorCode::ClusterGotContradictingAnswers,
        error_code_of(1468) == ErrorCode::ClusterNotAllShardingAttributesGiven,
        error_code_of(1469) == ErrorCode::ClusterMustNotChangeShardingAttributes,
        error_code_of(1470) == ErrorCode::ClusterUnsupported,
        error_code_of(1471) == ErrorCode::ClusterOnlyOnCoordinator,
        error_code_of(1472) == ErrorCode::ClusterReadingPlanAgency,
        error_code_of(1473) == ErrorCode::ClusterCouldNotTruncateCollection,
        error_code_of(1474) == ErrorCode::ClusterAqlCommunication,
        error_code_of(1475) == ErrorCode::ArangoDocumentNotFoundOrShardingAttributesChanged,
        error_code_of(1476) == ErrorCode::ClusterCouldNotDetermineId,
        error_code_of(1477) == ErrorCode::ClusterOnlyOnDbserver,
        error_code_of(1478) == ErrorCode::ClusterBackendUnavailable,
        error_code_of(1479) == ErrorCode::ClusterUnknownCallbackEndpoint,
        error_code_of(1480) == ErrorCode::ClusterAgencyStructureInvalid,
        error_code_of(1481) == ErrorCode::ClusterAqlCollectionOutOfSync,
        error_code_of(1482) == ErrorCode::ClusterCouldNotCreateIndexInPlan,
        error_code_of(1483) == ErrorCode::ClusterCouldNotDropIndexInPlan,
        error_code_of(1484) == ErrorCode::ClusterChainOfDistributeshardslike,
        error_code_of(1485) == ErrorCode::ClusterMustNotDropCollOtherDistributeshardslike,
        error_code_of(1486) == ErrorCode::ClusterUnknownDistributeshardslike,
        error_code_of(1487) == ErrorCode::ClusterInsufficientDbservers,
        error_code_of(1488) == ErrorCode::ClusterCouldNotDropFollower,
        error_code_of(1489) == ErrorCode::ClusterShardLeaderRefusesReplication,
        error_code_of(1490) == ErrorCode::ClusterShardFollowerRefusesOperation,
        error_code_of(1491) == ErrorCode::ClusterShardLeaderResigned,
        error_code_of(1492) == ErrorCode::ClusterAgencyCommunicationFailed,
        error_code_of(1493) == ErrorCode::ClusterDistributeShardsLikeReplicationFactor,
        error_code_of(1494) == ErrorCode::ClusterDistributeShardsLikeNumberOfShards,
        error_code_of(1500) == ErrorCode::QueryKilled,
        error_code_of(1501) == ErrorCode::QueryParse,
        error_code_of(1502) == ErrorCode::QueryEmpty,
        error_code_of(1503) == ErrorCode::QueryScript,
        error_code_of(1504) == ErrorCode::QueryNumberOutOfRange,
        error_code_of(1510) == ErrorCode::QueryVariableNameInvalid,
        error_code_of(1511) == ErrorCode::QueryVariableRedeclared,
        error_code_of(1512) == ErrorCode::QueryVariableNameUnknown,
        error_code_of(1521) == ErrorCode::QueryCollectionLockFailed,
        error_code_of(1522) == ErrorCode::QueryTooManyCollections,
        error_code_of(1530) == ErrorCode::QueryDocumentAttributeRedeclared,
        error_code_of(1540) == ErrorCode::QueryFunctionNameUnknown,
        error_code_of(1541) == ErrorCode::QueryFunctionArgumentNumberMismatch,
        error_code_of(1542) == ErrorCode::QueryFunctionArgumentTypeMismatch,
        error_code_of(1543) == ErrorCode::QueryInvalidRegex,
        error_code_of(1550) == ErrorCode::QueryBindParametersInvalid,
        error_code_of(1551) == ErrorCode::QueryBindParameterMissing,
        error_code_of(1552) == ErrorCode::QueryBindParameterUndeclared,
        error_code_of(1553) == ErrorCode::QueryBindParameterType,
        error_code_of(1560) == ErrorCode::QueryInvalidLogicalValue,
        error_code_of(1561) == ErrorCode::QueryInvalidArithmeticValue,
        error_code_of(1562) == ErrorCode::QueryDivisionByZero,
        error_code_of(1563) == ErrorCode::QueryArrayExpected,
        error_code_of(1569) == ErrorCode::QueryFailCalled,
        error_code_of(1570) == ErrorCode::QueryGeoIndexMissing,
        error_code_of(1571) == ErrorCode::QueryFulltextIndexMissing,
        error_code_of(1572) == ErrorCode::QueryInvalidDateValue,
        error_code_of(1573) == ErrorCode::QueryMultiModify,
        error_code_of(1574) == ErrorCode::QueryInvalidAggregateExpression,
        error_code_of(1575) == ErrorCode::QueryCompileTimeOptions,
        error_code_of(1576) == ErrorCode::QueryExceptionOptions,
        error_code_of(1577) == ErrorCode::QueryCollectionUsedInExpression,
        error_code_of(1578) == ErrorCode::QueryDisallowedDynamicCall,
        error_code_of(1579) == ErrorCode::QueryAccessAfterModification,
        error_code_of(1580) == ErrorCode::QueryFunctionInvalidName,
        error_code_of(1581) == ErrorCode::QueryFunctionInvalidCode,
        error_code_of(1582) == ErrorCode::QueryFunctionNotFound,
        error_code_of(1583) == ErrorCode::QueryFunctionRuntimeError,
        error_code_of(1590) == ErrorCode::QueryBadJsonPlan,
        error_code_of(1591) == ErrorCode::QueryNotFound,
        error_code_of(1592) == ErrorCode::QueryInUse,
        error_code_of(1600) == ErrorCode::CursorNotFound,
        error_code_of(1601) == ErrorCode::CursorBusy,
        error_code_of(1650) == ErrorCode::TransactionInternal,
        error_code_of(1651) == ErrorCode::TransactionNested,
        error_code_of(1652) == ErrorCode::TransactionUnregisteredCollection,
        error_code_of(1653) == ErrorCode::TransactionDisallowedOperation,
        error_code_of(1654) == ErrorCode::TransactionAborted,
        error_code_of(1700) == ErrorCode::UserInvalidName,
        error_code_of(1701) == ErrorCode::UserInvalidPassword,
        error_code_of(1702) == ErrorCode::UserDuplicate,
        error_code_of(1703) == ErrorCode::UserNotFound,
        error_code_of(1704) == ErrorCode::UserChangePassword,
        error_code_of(1750) == ErrorCode::ServiceInvalidName,
        error_code_of(1751) == ErrorCode::ServiceInvalidMount,
        error_code_of(1752) == ErrorCode::ServiceDownloadFailed,
        error_code_of(1753) == ErrorCode::ServiceUploadFailed,
        error_code_of(1800) == ErrorCode::LdapCannotInit,
        error_code_of(1801) == ErrorCode::LdapCannotSetOption,
        error_code_of(1802) == ErrorCode::LdapCannotBind,
        error_code_of(1803) == ErrorCode::LdapCannotUnbind,
        error_code_of(1804) == ErrorCode::LdapCannotSearch,
        error_code_of(1805) == ErrorCode::LdapCannotStartTls,
        error_code_of(1806) == ErrorCode::LdapFoundNoObjects,
        error_code_of(1807) == ErrorCode::LdapNotOneUserFound,
        error_code_of(1808) == ErrorCode::LdapUserNotIdentified,
        error_code_of(1820) == ErrorCode::LdapInvalidMode,
        error_code_of(1850) == ErrorCode::TaskInvalidId,
        error_code_of(1851) == ErrorCode::TaskDuplicateId,
        error_code_of(1852) == ErrorCode::TaskNotFound,
        error_code_of(1901) == ErrorCode::GraphInvalidGraph,
        error_code_of(1902) == ErrorCode::GraphCouldNotCreateGraph,
        error_code_of(1903) == ErrorCode::GraphInvalidVertex,
        error_code_of(1904) == ErrorCode::GraphCouldNotCreateVertex,
        error_code_of(1905) == ErrorCode::GraphCouldNotChangeVertex,
        error_code_of(1906) == ErrorCode::GraphInvalidEdge,
        error_code_of(1907) == ErrorCode::GraphCouldNotCreateEdge,
        error_code_of(1908) == ErrorCode::GraphCouldNotChangeEdge,
        error_code_of(1909) == ErrorCode::GraphTooManyIterations,
        error_code_of(1910) == ErrorCode::GraphInvalidFilterResult,
        error_code_of(1920) == ErrorCode::GraphCollectionMultiUse,
        error_code_of(1921) == ErrorCode::GraphCollectionUseInMultiGraphs,
        error_code_of(1922) == ErrorCode::GraphCreateMissingName,
        error_code_of(1923) == ErrorCode::GraphCreateMalformedEdgeDefinition,
        error_code_of(1924) == ErrorCode::GraphNotFound,
        error_code_of(1925) == ErrorCode::GraphDuplicate,
        error_code_of(1926) == ErrorCode::GraphVertexColDoesNotExist,
        error_code_of(1927) == ErrorCode::GraphWrongCollectionTypeVertex,
        error_code_of(1928) == ErrorCode::GraphNotInOrphanCollection,
        error_code_of(1929) == ErrorCode::GraphCollectionUsedInEdgeDef,
        error_code_of(1930) == ErrorCode::GraphEdgeCollectionNotUsed,
        error_code_of(1931) == ErrorCode::GraphNotAnArangoCollection,
        error_code_of(1932) == ErrorCode::GraphNoGraphCollection,
        error_code_of(1933) == ErrorCode::GraphInvalidExampleArrayObjectString,
        error_code_of(1934) == ErrorCode::GraphInvalidExampleArrayObject,
        error_code_of(1935) == ErrorCode::GraphInvalidNumberOfArguments,
        error_code_of(1936) == ErrorCode::GraphInvalidParameter,
        error_code_of(1937) == ErrorCode::GraphInvalidId,
        error_code_of(1938) == ErrorCode::GraphCollectionUsedInOrphans,
        error_code_of(1939) == ErrorCode::GraphEdgeColDoesNotExist,
        error_code_of(1940) == ErrorCode::GraphEmpty,
        error_code_of(1950) == ErrorCode::SessionUnknown,
        error_code_of(1951) == ErrorCode::SessionExpired,
        error_code_of(2000) == ErrorCode::SimpleClientUnknownError,
        error_code_of(2001) == ErrorCode::SimpleClientCouldNotConnect,
        error_code_of(2002) == ErrorCode::SimpleClientCouldNotWrite,
        error_code_of(2003) == ErrorCode::SimpleClientCouldNotRead,
        error_code_of(2100) == ErrorCode::CommunicatorRequestAborted,
        error_code_of(2101) == ErrorCode::CommunicatorDisabled,
        error_code_of(3000) == ErrorCode::MalformedManifestFile,
        error_code_of(3001) == ErrorCode::InvalidServiceManifest,
        error_code_of(3002) == ErrorCode::ServiceFilesMissing,
        error_code_of(3003) == ErrorCode::ServiceFilesOutdated,
        error_code_of(3004) == ErrorCode::InvalidFoxxOptions,
        error_code_of(3007) == ErrorCode::InvalidMountpoint,
        error_code_of(3009) == ErrorCode::ServiceNotFound,
        error_code_of(3010) == ErrorCode::ServiceNeedsConfiguration,
        error_code_of(3011) == ErrorCode::ServiceMountpointConflict,
        error_code_of(3012) == ErrorCode::ServiceManifestNotFound,
        error_code_of(3013) == ErrorCode::ServiceOptionsMalformed,
        error_code_of(3014) == ErrorCode::ServiceSourceNotFound,
        error_code_of(3015) == ErrorCode::ServiceSourceError,
        error_code_of(3016) == ErrorCode::ServiceUnknownScript,
        error_code_of(3100) == ErrorCode::ModuleNotFound,
        error_code_of(3101) == ErrorCode::ModuleSyntaxError,
        error_code_of(3103) == ErrorCode::ModuleFailure,
        error_code_of(4000) == ErrorCode::NoSmartCollection,
        error_code_of(4001) == ErrorCode::NoSmartGraphAttribute,
        error_code_of(4002) == ErrorCode::CannotDropSmartCollection,
        error_code_of(4003) == ErrorCode::KeyMustBePrefixedWithSmartGraphAttribute,
        error_code_of(4004) == ErrorCode::IllegalSmartGraphAttribute,
        error_code_of(20001) == ErrorCode::AgencyInquirySyntax,
        error_code_of(20011) == ErrorCode::AgencyInformMustBeObject,
        error_code_of(20012) == ErrorCode::AgencyInformMustContainTerm,
        error_code_of(20013) == ErrorCode::AgencyInformMustContainId,
        error_code_of(20014) == ErrorCode::AgencyInformMustContainActive,
        error_code_of(20015) == ErrorCode::AgencyInformMustContainPool,
        error_code_of(20016) == ErrorCode::AgencyInformMustContainMinPing,
        error_code_of(20017) == ErrorCode::AgencyInformMustContainMaxPing,
        error_code_of(20018) == ErrorCode::AgencyInformMustContainTimeoutMult,
        error_code_of(20020) == ErrorCode::AgencyInquireClientIdMustBeString,
        error_code_of(20021) == ErrorCode::AgencyCannotRebuildDbs,
        error_code_of(20501) == ErrorCode::SupervisionGeneralFailure,
        error_code_of(21001) == ErrorCode::DispatcherIsStopping,
        error_code_of(21002) == ErrorCode::QueueUnknown,
        error_code_of(21003) == ErrorCode::QueueFull,
{
    lemma_error_code_numbers();
    lemma_error_code_round_trip(ErrorCode::NoError);
    lemma_error_code_round_trip(ErrorCode::Failed);
    lemma_error_code_round_trip(ErrorCode::SysError);
    lemma_error_code_round_trip(ErrorCode::OutOfMemory);
    lemma_error_code_round_trip(ErrorCode::Internal);
    lemma_error_code_round_trip(ErrorCode::IllegalNumber);
    lemma_error_code_round_trip(ErrorCode::NumericOverflow);
    lemma_error_code_round_trip(ErrorCode::IllegalOption);
    lemma_error_code_round_trip(ErrorCode::DeadPid);
    lemma_error_code_round_trip(ErrorCode::NotImplemented);
    lemma_error_code_round_trip(ErrorCode::BadParameter);
    lemma_error_code_round_trip(ErrorCode::Forbidden);
    lemma_error_code_round_trip(ErrorCode::OutOfMemoryMmap);
    lemma_error_code_round_trip(ErrorCode::CorruptedCsv);
    lemma_error_code_round_trip(ErrorCode::FileNotFound);
    lemma_error_code_round_trip(ErrorCode::CannotWriteFile);
    lemma_error_code_round_trip(ErrorCode::CannotOverwriteFile);
    lemma_error_code_round_trip(ErrorCode::TypeError);
    lemma_error_code_round_trip(ErrorCode::LockTimeout);
    lemma_error_code_round_trip(ErrorCode::CannotCreateDirectory);
    lemma_error_code_round_trip(ErrorCode::CannotCreateTempFile);
    lemma_error_code_round_trip(ErrorCode::RequestCanceled);
    lemma_error_code_round_trip(ErrorCode::Debug);
    lemma_error_code_round_trip(ErrorCode::IpAddressInvalid);
    lemma_error_code_round_trip(ErrorCode::FileExists);
    lemma_error_code_round_trip(ErrorCode::Locked);
    lemma_error_code_round_trip(ErrorCode::Deadlock);
    lemma_error_code_round_trip(ErrorCode::ShuttingDown);
    lemma_error_code_round_trip(ErrorCode::OnlyEnterprise);
    lemma_error_code_round_trip(ErrorCode::ResourceLimit);
    lemma_error_code_round_trip(ErrorCode::HttpBadParameter);
    lemma_error_code_round_trip(ErrorCode::HttpUnauthorized);
    lemma_error_code_round_trip(ErrorCode::HttpForbidden);
    lemma_error_code_round_trip(ErrorCode::HttpNotFound);
    lemma_error_code_round_trip(ErrorCode::HttpMethodNotAllowed);
    lemma_error_code_round_trip(ErrorCode::HttpNotAcceptable);
    lemma_error_code_round_trip(ErrorCode::HttpConflict);
    lemma_error_code_round_trip(ErrorCode::HttpPreconditionFailed);
    lemma_error_code_round_trip(ErrorCode::HttpServerError);
    lemma_error_code_round_trip(ErrorCode::HttpServiceUnavailable);
    lemma_error_code_round_trip(ErrorCode::HttpCorruptedJson);
    lemma_error_code_round_trip(ErrorCode::HttpSuperfluousSuffices);
    lemma_error_code_round_trip(ErrorCode::ArangoIllegalState);
    lemma_error_code_round_trip(ErrorCode::ArangoDatafileSealed);
    lemma_error_code_round_trip(ErrorCode::ArangoReadOnly);
    lemma_error_code_round_trip(ErrorCode::ArangoDuplicateIdentifier);
    lemma_error_code_round_trip(ErrorCode::ArangoDatafileUnreadable);
    lemma_error_code_round_trip(ErrorCode::ArangoDatafileEmpty);
    lemma_error_code_round_trip(ErrorCode::ArangoRecovery);
    lemma_error_code_round_trip(ErrorCode::ArangoDatafileStatisticsNotFound);
    lemma_error_code_round_trip(ErrorCode::ArangoCorruptedDatafile);
    lemma_error_code_round_trip(ErrorCode::ArangoIllegalParameterFile);
    lemma_error_code_round_trip(ErrorCode::ArangoCorruptedCollection);
    lemma_error_code_round_trip(ErrorCode::ArangoMmapFailed);
    lemma_error_code_round_trip(ErrorCode::ArangoFilesystemFull);
    lemma_error_code_round_trip(ErrorCode::ArangoNoJournal);
    lemma_error_code_round_trip(ErrorCode::ArangoDatafileAlreadyExists);
    lemma_error_code_round_trip(ErrorCode::ArangoDatadirLocked);
    lemma_error_code_round_trip(ErrorCode::ArangoCollectionDirectoryAlreadyExists);
    lemma_error_code_round_trip(ErrorCode::ArangoMsyncFailed);
    lemma_error_code_round_trip(ErrorCode::ArangoDatadirUnlockable);
    lemma_error_code_round_trip(ErrorCode::ArangoSyncTimeout);
    lemma_error_code_round_trip(ErrorCode::ArangoConflict);
    lemma_error_code_round_trip(ErrorCode::ArangoDatadirInvalid);
    lemma_error_code_round_trip(ErrorCode::ArangoDocumentNotFound);
    lemma_error_code_round_trip(ErrorCode::ArangoCollectionNotFound);
    lemma_error_code_round_trip(ErrorCode::ArangoCollectionParameterMissing);
    lemma_error_code_round_trip(ErrorCode::ArangoDocumentHandleBad);
    lemma_error_code_round_trip(ErrorCode::ArangoMaximalSizeTooSmall);
    lemma_error_code_round_trip(ErrorCode::ArangoDuplicateName);
    lemma_error_code_round_trip(ErrorCode::ArangoIllegalName);
    lemma_error_code_round_trip(ErrorCode::ArangoNoIndex);
    lemma_error_code_round_trip(ErrorCode::ArangoUniqueConstraintViolated);
    lemma_error_code_round_trip(ErrorCode::ArangoViewNotFound);
    lemma_error_code_round_trip(ErrorCode::ArangoIndexNotFound);
    lemma_error_code_round_trip(ErrorCode::ArangoCrossCollectionRequest);
    lemma_error_code_round_trip(ErrorCode::ArangoIndexHandleBad);
    lemma_error_code_round_trip(ErrorCode::ArangoDocumentTooLarge);
    lemma_error_code_round_trip(ErrorCode::ArangoCollectionNotUnloaded);
    lemma_error_code_round_trip(ErrorCode::ArangoCollectionTypeInvalid);
    lemma_error_code_round_trip(ErrorCode::ArangoValidationFailed);
    lemma_error_code_round_trip(ErrorCode::ArangoAttributeParserFailed);
    lemma_error_code_round_trip(ErrorCode::ArangoDocumentKeyBad);
    lemma_error_code_round_trip(ErrorCode::ArangoDocumentKeyUnexpected);
    lemma_error_code_round_trip(ErrorCode::ArangoDatadirNotWritable);
    lemma_error_code_round_trip(ErrorCode::ArangoOutOfKeys);
    lemma_error_code_round_trip(ErrorCode::ArangoDocumentKeyMissing);
    lemma_error_code_round_trip(ErrorCode::ArangoDocumentTypeInvalid);
    lemma_error_code_round_trip(ErrorCode::ArangoDatabaseNotFound);
    lemma_error_code_round_trip(ErrorCode::ArangoDatabaseNameInvalid);
    lemma_error_code_round_trip(ErrorCode::ArangoUseSystemDatabase);
    lemma_error_code_round_trip(ErrorCode::ArangoEndpointNotFound);
    lemma_error_code_round_trip(ErrorCode::ArangoInvalidKeyGenerator);
    lemma_error_code_round_trip(ErrorCode::ArangoInvalidEdgeAttribute);
    lemma_error_code_round_trip(ErrorCode::ArangoIndexDocumentAttributeMissing);
    lemma_error_code_round_trip(ErrorCode::ArangoIndexCreationFailed);
    lemma_error_code_round_trip(ErrorCode::ArangoWriteThrottleTimeout);
    lemma_error_code_round_trip(ErrorCode::ArangoCollectionTypeMismatch);
    lemma_error_code_round_trip(ErrorCode::ArangoCollectionNotLoaded);
    lemma_error_code_round_trip(ErrorCode::ArangoDocumentRevBad);
    lemma_error_code_round_trip(ErrorCode::ArangoDatafileFull);
    lemma_error_code_round_trip(ErrorCode::ArangoEmptyDatadir);
    lemma_error_code_round_trip(ErrorCode::ArangoTryAgain);
    lemma_error_code_round_trip(ErrorCode::ArangoBusy);
    lemma_error_code_round_trip(ErrorCode::ArangoMergeInProgress);
    lemma_error_code_round_trip(ErrorCode::ArangoIoError);
    lemma_error_code_round_trip(ErrorCode::ReplicationNoResponse);
    lemma_error_code_round_trip(ErrorCode::ReplicationInvalidResponse);
    lemma_error_code_round_trip(ErrorCode::ReplicationMasterError);
    lemma_error_code_round_trip(ErrorCode::ReplicationMasterIncompatible);
    lemma_error_code_round_trip(ErrorCode::ReplicationMasterChange);
    lemma_error_code_round_trip(ErrorCode::ReplicationLoop);
    lemma_error_code_round_trip(ErrorCode::ReplicationUnexpectedMarker);
    lemma_error_code_round_trip(ErrorCode::ReplicationInvalidApplierState);
    lemma_error_code_round_trip(ErrorCode::ReplicationUnexpectedTransaction);
    lemma_error_code_round_trip(ErrorCode::ReplicationInvalidApplierConfiguration);
    lemma_error_code_round_trip(ErrorCode::ReplicationRunning);
    lemma_error_code_round_trip(ErrorCode::ReplicationApplierStopped);
    lemma_error_code_round_trip(ErrorCode::ReplicationNoStartTick);
    lemma_error_code_round_trip(ErrorCode::ReplicationStartTickNotPresent);
    lemma_error_code_round_trip(ErrorCode::ReplicationWrongChecksumFormat);
    lemma_error_code_round_trip(ErrorCode::ReplicationWrongChecksum);
    lemma_error_code_round_trip(ErrorCode::ClusterNoAgency);
    lemma_error_code_round_trip(ErrorCode::ClusterNoCoordinatorHeader);
    lemma_error_code_round_trip(ErrorCode::ClusterCouldNotLockPlan);
    lemma_error_code_round_trip(ErrorCode::ClusterCollectionIdExists);
    lemma_error_code_round_trip(ErrorCode::ClusterCouldNotCreateCollectionInPlan);
    lemma_error_code_round_trip(ErrorCode::ClusterCouldNotReadCurrentVersion);
    lemma_error_code_round_trip(ErrorCode::ClusterCouldNotCreateCollection);
    lemma_error_code_round_trip(ErrorCode::ClusterTimeout);
    lemma_error_code_round_trip(ErrorCode::ClusterCouldNotRemoveCollectionInPlan);
    lemma_error_code_round_trip(ErrorCode::ClusterCouldNotRemoveCollectionInCurrent);
    lemma_error_code_round_trip(ErrorCode::ClusterCouldNotCreateDatabaseInPlan);
    lemma_error_code_round_trip(ErrorCode::ClusterCouldNotCreateDatabase);
    lemma_error_code_round_trip(ErrorCode::ClusterCouldNotRemoveDatabaseInPlan);
    lemma_error_code_round_trip(ErrorCode::ClusterCouldNotRemoveDatabaseInCurrent);
    lemma_error_code_round_trip(ErrorCode::ClusterShardGone);
    lemma_error_code_round_trip(ErrorCode::ClusterConnectionLost);
    lemma_error_code_round_trip(ErrorCode::ClusterMustNotSpecifyKey);
    lemma_error_code_round_trip(ErrorCode::ClusterGotContradictingAnswers);
    lemma_error_code_round_trip(ErrorCode::ClusterNotAllShardingAttributesGiven);
    lemma_error_code_round_trip(ErrorCode::ClusterMustNotChangeShardingAttributes);
    lemma_error_code_round_trip(ErrorCode::ClusterUnsupported);
    lemma_error_code_round_trip(ErrorCode::ClusterOnlyOnCoordinator);
    lemma_error_code_round_trip(ErrorCode::ClusterReadingPlanAgency);
    lemma_error_code_round_trip(ErrorCode::ClusterCouldNotTruncateCollection);
    lemma_error_code_round_trip(ErrorCode::ClusterAqlCommunication);
    lemma_error_code_round_trip(ErrorCode::ArangoDocumentNotFoundOrShardingAttributesChanged);
    lemma_error_code_round_trip(ErrorCode::ClusterCouldNotDetermineId);
    lemma_error_code_round_trip(ErrorCode::ClusterOnlyOnDbserver);
    lemma_error_code_round_trip(ErrorCode::ClusterBackendUnavailable);
    lemma_error_code_round_trip(ErrorCode::ClusterUnknownCallbackEndpoint);
    lemma_error_code_round_trip(ErrorCode::ClusterAgencyStructureInvalid);
    lemma_error_code_round_trip(ErrorCode::ClusterAqlCollectionOutOfSync);
    lemma_error_code_round_trip(ErrorCode::ClusterCouldNotCreateIndexInPlan);
    lemma_error_code_round_trip(ErrorCode::ClusterCouldNotDropIndexInPlan);
    lemma_error_code_round_trip(ErrorCode::ClusterChainOfDistributeshardslike);
    lemma_error_code_round_trip(ErrorCode::ClusterMustNotDropCollOtherDistributeshardslike);
    lemma_error_code_round_trip(ErrorCode::ClusterUnknownDistributeshardslike);
    lemma_error_code_round_trip(ErrorCode::ClusterInsufficientDbservers);
    lemma_error_code_round_trip(ErrorCode::ClusterCouldNotDropFollower);
    lemma_error_code_round_trip(ErrorCode::ClusterShardLeaderRefusesReplication);
    lemma_error_code_round_trip(ErrorCode::ClusterShardFollowerRefusesOperation);
    lemma_error_code_round_trip(ErrorCode::ClusterShardLeaderResigned);
    lemma_error_code_round_trip(ErrorCode::ClusterAgencyCommunicationFailed);
    lemma_error_code_round_trip(ErrorCode::ClusterDistributeShardsLikeReplicationFactor);
    lemma_error_code_round_trip(ErrorCode::ClusterDistributeShardsLikeNumberOfShards);
    lemma_error_code_round_trip(ErrorCode::QueryKilled);
    lemma_error_code_round_trip(ErrorCode::QueryParse);
    lemma_error_code_round_trip(ErrorCode::QueryEmpty);
    lemma_error_code_round_trip(ErrorCode::QueryScript);
    lemma_error_code_round_trip(ErrorCode::QueryNumberOutOfRange);
    lemma_error_code_round_trip(ErrorCode::QueryVariableNameInvalid);
    lemma_error_code_round_trip(ErrorCode::QueryVariableRedeclared);
    lemma_error_code_round_trip(ErrorCode::QueryVariableNameUnknown);
    lemma_error_code_round_trip(ErrorCode::QueryCollectionLockFailed);
    lemma_error_code_round_trip(ErrorCode::QueryTooManyCollections);
    lemma_error_code_round_trip(ErrorCode::QueryDocumentAttributeRedeclared);
    lemma_error_code_round_trip(ErrorCode::QueryFunctionNameUnknown);
    lemma_error_code_round_trip(ErrorCode::QueryFunctionArgumentNumberMismatch);
    lemma_error_code_round_trip(ErrorCode::QueryFunctionArgumentTypeMismatch);
    lemma_error_code_round_trip(ErrorCode::QueryInvalidRegex);
    lemma_error_code_round_trip(ErrorCode::QueryBindParametersInvalid);
    lemma_error_code_round_trip(ErrorCode::QueryBindParameterMissing);
    lemma_error_code_round_trip(ErrorCode::QueryBindParameterUndeclared);
    lemma_error_code_round_trip(ErrorCode::QueryBindParameterType);
    lemma_error_code_round_trip(ErrorCode::QueryInvalidLogicalValue);
    lemma_error_code_round_trip(ErrorCode::QueryInvalidArithmeticValue);
    lemma_error_code_round_trip(ErrorCode::QueryDivisionByZero);
    lemma_error_code_round_trip(ErrorCode::QueryArrayExpected);
    lemma_error_code_round_trip(ErrorCode::QueryFailCalled);
    lemma_error_code_round_trip(ErrorCode::QueryGeoIndexMissing);
    lemma_error_code_round_trip(ErrorCode::QueryFulltextIndexMissing);
    lemma_error_code_round_trip(ErrorCode::QueryInvalidDateValue);
    lemma_error_code_round_trip(ErrorCode::QueryMultiModify);
    lemma_error_code_round_trip(ErrorCode::QueryInvalidAggregateExpression);
    lemma_error_code_round_trip(ErrorCode::QueryCompileTimeOptions);
    lemma_error_code_round_trip(ErrorCode::QueryExceptionOptions);
    lemma_error_code_round_trip(ErrorCode::QueryCollectionUsedInExpression);
    lemma_error_code_round_trip(ErrorCode::QueryDisallowedDynamicCall);
    lemma_error_code_round_trip(ErrorCode::QueryAccessAfterModification);
    lemma_error_code_round_trip(ErrorCode::QueryFunctionInvalidName);
    lemma_error_code_round_trip(ErrorCode::QueryFunctionInvalidCode);
    lemma_error_code_round_trip(ErrorCode::QueryFunctionNotFound);
    lemma_error_code_round_trip(ErrorCode::QueryFunctionRuntimeError);
    lemma_error_code_round_trip(ErrorCode::QueryBadJsonPlan);
    lemma_error_code_round_trip(ErrorCode::QueryNotFound);
    lemma_error_code_round_trip(ErrorCode::QueryInUse);
    lemma_error_code_round_trip(ErrorCode::CursorNotFound);
    lemma_error_code_round_trip(ErrorCode::CursorBusy);
    lemma_error_code_round_trip(ErrorCode::TransactionInternal);
    lemma_error_code_round_trip(ErrorCode::TransactionNested);
    lemma_error_code_round_trip(ErrorCode::TransactionUnregisteredCollection);
    lemma_error_code_round_trip(ErrorCode::TransactionDisallowedOperation);
    lemma_error_code_round_trip(ErrorCode::TransactionAborted);
    lemma_error_code_round_trip(ErrorCode::UserInvalidName);
    lemma_error_code_round_trip(ErrorCode::UserInvalidPassword);
    lemma_error_code_round_trip(ErrorCode::UserDuplicate);
    lemma_error_code_round_trip(ErrorCode::UserNotFound);
    lemma_error_code_round_trip(ErrorCode::UserChangePassword);
    lemma_error_code_round_trip(ErrorCode::ServiceInvalidName);
    lemma_error_code_round_trip(ErrorCode::ServiceInvalidMount);
    lemma_error_code_round_trip(ErrorCode::ServiceDownloadFailed);
    lemma_error_code_round_trip(ErrorCode::ServiceUploadFailed);
    lemma_error_code_round_trip(ErrorCode::LdapCannotInit);
    lemma_error_code_round_trip(ErrorCode::LdapCannotSetOption);
    lemma_error_code_round_trip(ErrorCode::LdapCannotBind);
    lemma_error_code_round_trip(ErrorCode::LdapCannotUnbind);
    lemma_error_code_round_trip(ErrorCode::LdapCannotSearch);
    lemma_error_code_round_trip(ErrorCode::LdapCannotStartTls);
    lemma_error_code_round_trip(ErrorCode::LdapFoundNoObjects);
    lemma_error_code_round_trip(ErrorCode::LdapNotOneUserFound);
    lemma_error_code_round_trip(ErrorCode::LdapUserNotIdentified);
    lemma_error_code_round_trip(ErrorCode::LdapInvalidMode);
    lemma_error_code_round_trip(ErrorCode::TaskInvalidId);
    lemma_error_code_round_trip(ErrorCode::TaskDuplicateId);
    lemma_error_code_round_trip(ErrorCode::TaskNotFound);
    lemma_error_code_round_trip(ErrorCode::GraphInvalidGraph);
    lemma_error_code_round_trip(ErrorCode::GraphCouldNotCreateGraph);
    lemma_error_code_round_trip(ErrorCode::GraphInvalidVertex);
    lemma_error_code_round_trip(ErrorCode::GraphCouldNotCreateVertex);
    lemma_error_code_round_trip(ErrorCode::GraphCouldNotChangeVertex);
    lemma_error_code_round_trip(ErrorCode::GraphInvalidEdge);
    lemma_error_code_round_trip(ErrorCode::GraphCouldNotCreateEdge);
    lemma_error_code_round_trip(ErrorCode::GraphCouldNotChangeEdge);
    lemma_error_code_round_trip(ErrorCode::GraphTooManyIterations);
    lemma_error_code_round_trip(ErrorCode::GraphInvalidFilterResult);
    lemma_error_code_round_trip(ErrorCode::GraphCollectionMultiUse);
    lemma_error_code_round_trip(ErrorCode::GraphCollectionUseInMultiGraphs);
    lemma_error_code_round_trip(ErrorCode::GraphCreateMissingName);
    lemma_error_code_round_trip(ErrorCode::GraphCreateMalformedEdgeDefinition);
    lemma_error_code_round_trip(ErrorCode::GraphNotFound);
    lemma_error_code_round_trip(ErrorCode::GraphDuplicate);
    lemma_error_code_round_trip(ErrorCode::GraphVertexColDoesNotExist);
    lemma_error_code_round_trip(ErrorCode::GraphWrongCollectionTypeVertex);
    lemma_error_code_round_trip(ErrorCode::GraphNotInOrphanCollection);
    lemma_error_code_round_trip(ErrorCode::GraphCollectionUsedInEdgeDef);
    lemma_error_code_round_trip(ErrorCode::GraphEdgeCollectionNotUsed);
    lemma_error_code_round_trip(ErrorCode::GraphNotAnArangoCollection);
    lemma_error_code_round_trip(ErrorCode::GraphNoGraphCollection);
    lemma_error_code_round_trip(ErrorCode::GraphInvalidExampleArrayObjectString);
    lemma_error_code_round_trip(ErrorCode::GraphInvalidExampleArrayObject);
    lemma_error_code_round_trip(ErrorCode::GraphInvalidNumberOfArguments);
    lemma_error_code_round_trip(ErrorCode::GraphInvalidParameter);
    lemma_error_code_round_trip(ErrorCode::GraphInvalidId);
    lemma_error_code_round_trip(ErrorCode::GraphCollectionUsedInOrphans);
    lemma_error_code_round_trip(ErrorCode::GraphEdgeColDoesNotExist);
    lemma_error_code_round_trip(ErrorCode::GraphEmpty);
    lemma_error_code_round_trip(ErrorCode::SessionUnknown);
    lemma_error_code_round_trip(ErrorCode::SessionExpired);
    lemma_error_code_round_trip(ErrorCode::SimpleClientUnknownError);
    lemma_error_code_round_trip(ErrorCode::SimpleClientCouldNotConnect);
    lemma_error_code_round_trip(ErrorCode::SimpleClientCouldNotWrite);
    lemma_error_code_round_trip(ErrorCode::SimpleClientCouldNotRead);
    lemma_error_code_round_trip(ErrorCode::CommunicatorRequestAborted);
    lemma_error_code_round_trip(ErrorCode::CommunicatorDisabled);
    lemma_error_code_round_trip(ErrorCode::MalformedManifestFile);
    lemma_error_code_round_trip(ErrorCode::InvalidServiceManifest);
    lemma_error_code_round_trip(ErrorCode::ServiceFilesMissing);
    lemma_error_code_round_trip(ErrorCode::ServiceFilesOutdated);
    lemma_error_code_round_trip(ErrorCode::InvalidFoxxOptions);
    lemma_error_code_round_trip(ErrorCode::InvalidMountpoint);
    lemma_error_code_round_trip(ErrorCode::ServiceNotFound);
    lemma_error_code_round_trip(ErrorCode::ServiceNeedsConfiguration);
    lemma_error_code_round_trip(ErrorCode::ServiceMountpointConflict);
    lemma_error_code_round_trip(ErrorCode::ServiceManifestNotFound);
    lemma_error_code_round_trip(ErrorCode::ServiceOptionsMalformed);
    lemma_error_code_round_trip(ErrorCode::ServiceSourceNotFound);
    lemma_error_code_round_trip(ErrorCode::ServiceSourceError);
    lemma_error_code_round_trip(ErrorCode::ServiceUnknownScript);
    lemma_error_code_round_trip(ErrorCode::ModuleNotFound);
    lemma_error_code_round_trip(ErrorCode::ModuleSyntaxError);
    lemma_error_code_round_trip(ErrorCode::ModuleFailure);
    lemma_error_code_round_trip(ErrorCode::NoSmartCollection);
    lemma_error_code_round_trip(ErrorCode::NoSmartGraphAttribute);
    lemma_error_code_round_trip(ErrorCode::CannotDropSmartCollection);
    lemma_error_code_round_trip(ErrorCode::KeyMustBePrefixedWithSmartGraphAttribute);
    lemma_error_code_round_trip(ErrorCode::IllegalSmartGraphAttribute);
    lemma_error_code_round_trip(ErrorCode::AgencyInquirySyntax);
    lemma_error_code_round_trip(ErrorCode::AgencyInformMustBeObject);
    lemma_error_code_round_trip(ErrorCode::AgencyInformMustContainTerm);
    lemma_error_code_round_trip(ErrorCode::AgencyInformMustContainId);
    lemma_error_code_round_trip(ErrorCode::AgencyInformMustContainActive);
    lemma_error_code_round_trip(ErrorCode::AgencyInformMustContainPool);
    lemma_error_code_round_trip(ErrorCode::AgencyInformMustContainMinPing);
    lemma_error_code_round_trip(ErrorCode::AgencyInformMustContainMaxPing);
    lemma_error_code_round_trip(ErrorCode::AgencyInformMustContainTimeoutMult);
    lemma_error_code_round_trip(ErrorCode::AgencyInquireClientIdMustBeString);
    lemma_error_code_round_trip(ErrorCode::AgencyCannotRebuildDbs);
    lemma_error_code_round_trip(ErrorCode::SupervisionGeneralFailure);
    lemma_error_code_round_trip(ErrorCode::DispatcherIsStopping);
    lemma_error_code_round_trip(ErrorCode::QueueUnknown);
    lemma_error_code_round_trip(ErrorCode::QueueFull);
}

/// Each error code has the description ArangoDB documents for it.
pub proof fn lemma_error_code_descriptions()
    ensures
        error_code_description(ErrorCode::NoError) == "No error has occurred."@,
        error_code_description(ErrorCode::Failed) == "Will be raised when a general error occurred."@,
        error_code_description(ErrorCode::SysError) == "Will be raised when operating system error occurred."@,
        error_code_description(ErrorCode::OutOfMemory) == "Will be raised when there is a memory shortage."@,
        error_code_description(ErrorCode::Internal) == "Will be raised when an internal error occurred."@,
        error_code_description(ErrorCode::IllegalNumber) == "Will be raised when an illegal representation of a number was given."@,
        error_code_description(ErrorCode::NumericOverflow) == "Will be raised when a numeric overflow occurred."@,
        error_code_description(ErrorCode::IllegalOption) == "Will be raised when an unknown option was supplied by the user."@,
        error_code_description(ErrorCode::DeadPid) == "Will be raised when a PID without a living process was found."@,
        error_code_description(ErrorCode::NotImplemented) == "Will be raised when hitting an unimplemented feature."@,
        error_code_description(ErrorCode::BadParameter) == "Will be raised when the parameter does not fulfill the requirements."@,
        error_code_description(ErrorCode::Forbidden) == "Will be raised when you are missing permission for the operation."@,
        error_code_description(ErrorCode::OutOfMemoryMmap) == "Will be raised when there is a memory shortage."@,
        error_code_description(ErrorCode::CorruptedCsv) == "Will be raised when encountering a corrupt csv line."@,
        error_code_description(ErrorCode::FileNotFound) == "Will be raised when a file is not found."@,
        error_code_description(ErrorCode::CannotWriteFile) == "Will be raised when a file cannot be written."@,
        error_code_description(ErrorCode::CannotOverwriteFile) == "Will be raised when an attempt is made to overwrite an existing file."@,
        error_code_description(ErrorCode::TypeError) == "Will be raised when a type error is encountered."@,
        error_code_description(ErrorCode::LockTimeout) == "Will be raised when there's a timeout waiting for a lock."@,
        error_code_description(ErrorCode::CannotCreateDirectory) == "Will be raised when an attempt to create a directory fails."@,
        error_code_description(ErrorCode::CannotCreateTempFile) == "Will be raised when an attempt to create a temporary file fails."@,
        error_code_description(ErrorCode::RequestCanceled) == "Will be raised when a request is canceled by the user."@,
        error_code_description(ErrorCode::Debug) == "Will be raised intentionally during debugging."@,
        error_code_description(ErrorCode::IpAddressInvalid) == "Will be raised when the structure of an IP address is invalid."@,
        error_code_description(ErrorCode::FileExists) == "Will be raised when a file already exists."@,
        error_code_description(ErrorCode::Locked) == "Will be raised when a resource or an operation is locked."@,
        error_code_description(ErrorCode::Deadlock) == "Will be raised when a deadlock is detected when accessing collections."@,
        error_code_description(ErrorCode::ShuttingDown) == "Will be raised when a call cannot succeed because a server shutdown is already in progress."@,
        error_code_description(ErrorCode::OnlyEnterprise) == "Will be raised when an enterprise-feature is requested from the community edition."@,
        error_code_description(ErrorCode::ResourceLimit) == "Will be raised when the resources used by an operation exceed the configured maximum value."@,
        error_code_description(ErrorCode::HttpBadParameter) == "Will be raised when the HTTP request does not fulfill the requirements."@,
        error_code_description(ErrorCode::HttpUnauthorized) == "Will be raised when authorization is required but the user is not authorized."@,
        error_code_description(ErrorCode::HttpForbidden) == "Will be raised when the operation is forbidden."@,
        error_code_description(ErrorCode::HttpNotFound) == "Will be raised when an URI is unknown."@,
        error_code_description(ErrorCode::HttpMethodNotAllowed) == "Will be raised when an unsupported HTTP method is used for an operation."@,
        error_code_description(ErrorCode::HttpNotAcceptable) == "Will be raised when an unsupported HTTP content type is used for an operation, or if a request is not acceptable for a leader or follower."@,
        error_code_description(ErrorCode::HttpConflict) == "Will be raised when a conflict with the current state of a resource is found."@,
        error_code_description(ErrorCode::HttpPreconditionFailed) == "Will be raised when a precondition for an HTTP request is not met."@,
        error_code_description(ErrorCode::HttpServerError) == "Will be raised when an internal server is encountered."@,
        error_code_description(ErrorCode::HttpServiceUnavailable) == "Will be raised when a service is temporarily unavailable."@,
        error_code_description(ErrorCode::HttpCorruptedJson) == "Will be raised when a string representation of a JSON object is corrupt."@,
        error_code_description(ErrorCode::HttpSuperfluousSuffices) == "Will be raised when the URL contains superfluous suffices."@,
        error_code_description(ErrorCode::ArangoIllegalState) == "Internal error that will be raised when the datafile is not in the required state."@,
        error_code_description(ErrorCode::ArangoDatafileSealed) == "Internal error that will be raised when trying to write to a datafile."@,
        error_code_description(ErrorCode::ArangoReadOnly) == "Internal error that will be raised when trying to write to a read-only datafile or collection."@,
        error_code_description(ErrorCode::ArangoDuplicateIdentifier) == "Internal error that will be raised when a identifier duplicate is detected."@,
        error_code_description(ErrorCode::ArangoDatafileUnreadable) == "Internal error that will be raised when a datafile is unreadable."@,
        error_code_description(ErrorCode::ArangoDatafileEmpty) == "Internal error that will be raised when a datafile is empty."@,
        error_code_description(ErrorCode::ArangoRecovery) == "Will be raised when an error occurred during WAL log file recovery."@,
        error_code_description(ErrorCode::ArangoDatafileStatisticsNotFound) == "Will be raised when a required datafile statistics object was not found."@,
        error_code_description(ErrorCode::ArangoCorruptedDatafile) == "Will be raised when a corruption is detected in a datafile."@,
        error_code_description(ErrorCode::ArangoIllegalParameterFile) == "Will be raised if a parameter file is corrupted or cannot be read."@,
        error_code_description(ErrorCode::ArangoCorruptedCollection) == "Will be raised when a collection contains one or more corrupted data files."@,
        error_code_description(ErrorCode::ArangoMmapFailed) == "Will be raised when the system call mmap failed."@,
        error_code_description(ErrorCode::ArangoFilesystemFull) == "Will be raised when the filesystem is full."@,
        error_code_description(ErrorCode::ArangoNoJournal) == "Will be raised when a journal cannot be created."@,
        error_code_description(ErrorCode::ArangoDatafileAlreadyExists) == "Will be raised when the datafile cannot be created or renamed because a file of the same name already exists."@,
        error_code_description(ErrorCode::ArangoDatadirLocked) == "Will be raised when the database directory is locked by a different process."@,
        error_code_description(ErrorCode::ArangoCollectionDirectoryAlreadyExists) == "Will be raised when the collection cannot be created because a directory of the same name already exists."@,
        error_code_description(ErrorCode::ArangoMsyncFailed) == "Will be raised when the system call msync failed."@,
        error_code_description(ErrorCode::ArangoDatadirUnlockable) == "Will be raised when the server cannot lock the database directory on startup."@,
        error_code_description(ErrorCode::ArangoSyncTimeout) == "Will be raised when the server waited too long for a datafile to be synced to disk."@,
        error_code_description(ErrorCode::ArangoConflict) == "Will be raised when updating or deleting a document and a conflict has been detected."@,
        error_code_description(ErrorCode::ArangoDatadirInvalid) == "Will be raised when a non-existing database directory was specified when starting the database."@,
        error_code_description(ErrorCode::ArangoDocumentNotFound) == "Will be raised when a document with a given identifier or handle is unknown."@,
        error_code_description(ErrorCode::ArangoCollectionNotFound) == "Will be raised when a collection with the given identifier or name is unknown."@,
        error_code_description(ErrorCode::ArangoCollectionParameterMissing) == "Will be raised when the collection parameter is missing."@,
        error_code_description(ErrorCode::ArangoDocumentHandleBad) == "Will be raised when a document handle is corrupt."@,
        error_code_description(ErrorCode::ArangoMaximalSizeTooSmall) == "Will be raised when the maximal size of the journal is too small."@,
        error_code_description(ErrorCode::ArangoDuplicateName) == "Will be raised when a name duplicate is detected."@,
        error_code_description(ErrorCode::ArangoIllegalName) == "Will be raised when an illegal name is detected."@,
        error_code_description(ErrorCode::ArangoNoIndex) == "Will be raised when no suitable index for the query is known."@,
        error_code_description(ErrorCode::ArangoUniqueConstraintViolated) == "Will be raised when there is a unique constraint violation."@,
        error_code_description(ErrorCode::ArangoViewNotFound) == "Will be raised when a view with the given identifier or name is unknown."@,
        error_code_description(ErrorCode::ArangoIndexNotFound) == "Will be raised when an index with a given identifier is unknown."@,
        error_code_description(ErrorCode::ArangoCrossCollectionRequest) == "Will be raised when a cross-collection is requested."@,
        error_code_description(ErrorCode::ArangoIndexHandleBad) == "Will be raised when a index handle is corrupt."@,
        error_code_description(ErrorCode::ArangoDocumentTooLarge) == "Will be raised when the document cannot fit into any datafile because of it is too large."@,
        error_code_description(ErrorCode::ArangoCollectionNotUnloaded) == "Will be raised when a collection should be unloaded, but has a different status."@,
        error_code_description(ErrorCode::ArangoCollectionTypeInvalid) == "Will be raised when an invalid collection type is used in a request."@,
        error_code_description(ErrorCode::ArangoValidationFailed) == "Will be raised when the validation of an attribute of a structure failed."@,
        error_code_description(ErrorCode::ArangoAttributeParserFailed) == "Will be raised when parsing an attribute name definition failed."@,
        error_code_description(ErrorCode::ArangoDocumentKeyBad) == "Will be raised when a document key is corrupt."@,
        error_code_description(ErrorCode::ArangoDocumentKeyUnexpected) == "Will be raised when a user-defined document key is supplied for collections with auto key generation."@,
        error_code_description(ErrorCode::ArangoDatadirNotWritable) == "Will be raised when the server's database directory is not writable for the current user."@,
        error_code_description(ErrorCode::ArangoOutOfKeys) == "Will be raised when a key generator runs out of keys."@,
        error_code_description(ErrorCode::ArangoDocumentKeyMissing) == "Will be raised when a document key is missing."@,
        error_code_description(ErrorCode::ArangoDocumentTypeInvalid) == "Will be raised when there is an attempt to create a document with an invalid type."@,
        error_code_description(ErrorCode::ArangoDatabaseNotFound) == "Will be raised when a non-existing database is accessed."@,
        error_code_description(ErrorCode::ArangoDatabaseNameInvalid) == "Will be raised when an invalid database name is used."@,
        error_code_description(ErrorCode::ArangoUseSystemDatabase) == "Will be raised when an operation is requested in a database other than the system database."@,
        error_code_description(ErrorCode::ArangoEndpointNotFound) == "Will be raised when there is an attempt to delete a non-existing endpoint."@,
        error_code_description(ErrorCode::ArangoInvalidKeyGenerator) == "Will be raised when an invalid key generator description is used."@,
        error_code_description(ErrorCode::ArangoInvalidEdgeAttribute) == "will be raised when the _from or _to values of an edge are undefined or contain an invalid value."@,
        error_code_description(ErrorCode::ArangoIndexDocumentAttributeMissing) == "Will be raised when an attempt to insert a document into an index is caused by in the document not having one or more attributes which the index is built on."@,
        error_code_description(ErrorCode::ArangoIndexCreationFailed) == "Will be raised when an attempt to create an index has failed."@,
        error_code_description(ErrorCode::ArangoWriteThrottleTimeout) == "Will be raised when the server is write-throttled and a write operation has waited too long for the server to process queued operations."@,
        error_code_description(ErrorCode::ArangoCollectionTypeMismatch) == "Will be raised when a collection has a different type from what has been expected."@,
        error_code_description(ErrorCode::ArangoCollectionNotLoaded) == "Will be raised when a collection is accessed that is not yet loaded."@,
        error_code_description(ErrorCode::ArangoDocumentRevBad) == "Will be raised when a document revision is corrupt or is missing where needed."@,
        error_code_description(ErrorCode::ArangoDatafileFull) == "Will be raised when the datafile reaches its limit."@,
        error_code_description(ErrorCode::ArangoEmptyDatadir) == "Will be raised when encountering an empty server database directory."@,
        error_code_description(ErrorCode::ArangoTryAgain) == "Will be raised when an operation should be retried."@,
        error_code_description(ErrorCode::ArangoBusy) == "Will be raised when storage engine is busy."@,
        error_code_description(ErrorCode::ArangoMergeInProgress) == "Will be raised when storage engine has a datafile merge in progress and cannot complete the operation."@,
        error_code_description(ErrorCode::ArangoIoError) == "Will be raised when storage engine encounters an I/O error."@,
        error_code_description(ErrorCode::ReplicationNoResponse) == "Will be raised when the replication applier does not receive any or an incomplete response from the master."@,
        error_code_description(ErrorCode::ReplicationInvalidResponse) == "Will be raised when the replication applier receives an invalid response from the master."@,
        error_code_description(ErrorCode::ReplicationMasterError) == "Will be raised when the replication applier receives a server error from the master."@,
        error_code_description(ErrorCode::ReplicationMasterIncompatible) == "Will be raised when the replication applier connects to a master that has an incompatible version."@,
        error_code_description(ErrorCode::ReplicationMasterChange) == "Will be raised when the replication applier connects to a different master than before."@,
        error_code_description(ErrorCode::ReplicationLoop) == "Will be raised when the replication applier is asked to connect to itself for replication."@,
        error_code_description(ErrorCode::ReplicationUnexpectedMarker) == "Will be raised when an unexpected marker is found in the replication log stream."@,
        error_code_description(ErrorCode::ReplicationInvalidApplierState) == "Will be raised when an invalid replication applier state file is found."@,
        error_code_description(ErrorCode::ReplicationUnexpectedTransaction) == "Will be raised when an unexpected transaction id is found."@,
        error_code_description(ErrorCode::ReplicationInvalidApplierConfiguration) == "Will be raised when the configuration for the replication applier is invalid."@,
        error_code_description(ErrorCode::ReplicationRunning) == "Will be raised when there is an attempt to perform an operation while the replication applier is running."@,
        error_code_description(ErrorCode::ReplicationApplierStopped) == "Special error code used to indicate the replication applier was stopped by a user."@,
        error_code_description(ErrorCode::ReplicationNoStartTick) == "Will be raised when the replication applier is started without a known start tick value."@,
        error_code_description(ErrorCode::ReplicationStartTickNotPresent) == "Will be raised when the replication applier fetches data using a start tick, but that start tick is not present on the logger server anymore."@,
        error_code_description(ErrorCode::ReplicationWrongChecksumFormat) == "Will be raised when the format of the checksum is wrong"@,
        error_code_description(ErrorCode::ReplicationWrongChecksum) == "Will be raised when a new born follower submits a wrong checksum"@,
        error_code_description(ErrorCode::ClusterNoAgency) == "Will be raised when none of the agency servers can be connected to."@,
        error_code_description(ErrorCode::ClusterNoCoordinatorHeader) == "Will be raised when a DB server in a cluster receives a HTTP request without a coordinator header."@,
        error_code_description(ErrorCode::ClusterCouldNotLockPlan) == "Will be raised when a coordinator in a cluster cannot lock the Plan hierarchy in the agency."@,
        error_code_description(ErrorCode::ClusterCollectionIdExists) == "Will be raised when a coordinator in a cluster tries to create a collection and the collection ID already exists."@,
        error_code_description(ErrorCode::ClusterCouldNotCreateCollectionInPlan) == "Will be raised when a coordinator in a cluster cannot create an entry for a new collection in the Plan hierarchy in the agency."@,
        error_code_description(ErrorCode::ClusterCouldNotReadCurrentVersion) == "Will be raised when a coordinator in a cluster cannot read the Version entry in the Current hierarchy in the agency."@,
        error_code_description(ErrorCode::ClusterCouldNotCreateCollection) == "Will be raised when a coordinator in a cluster notices that some DBServers report problems when creating shards for a new collection."@,
        error_code_description(ErrorCode::ClusterTimeout) == "Will be raised when a coordinator in a cluster runs into a timeout for some cluster wide operation."@,
        error_code_description(ErrorCode::ClusterCouldNotRemoveCollectionInPlan) == "Will be raised when a coordinator in a cluster cannot remove an entry for a collection in the Plan hierarchy in the agency."@,
        error_code_description(ErrorCode::ClusterCouldNotRemoveCollectionInCurrent) == "Will be raised when a coordinator in a cluster cannot remove an entry for a collection in the Current hierarchy in the agency."@,
        error_code_description(ErrorCode::ClusterCouldNotCreateDatabaseInPlan) == "Will be raised when a coordinator in a cluster cannot create an entry for a new database in the Plan hierarchy in the agency."@,
        error_code_description(ErrorCode::ClusterCouldNotCreateDatabase) == "Will be raised when a coordinator in a cluster notices that some DBServers report problems when creating databases for a new cluster wide database."@,
        error_code_description(ErrorCode::ClusterCouldNotRemoveDatabaseInPlan) == "Will be raised when a coordinator in a cluster cannot remove an entry for a database in the Plan hierarchy in the agency."@,
        error_code_description(ErrorCode::ClusterCouldNotRemoveDatabaseInCurrent) == "Will be raised when a coordinator in a cluster cannot remove an entry for a database in the Current hierarchy in the agency."@,
        error_code_description(ErrorCode::ClusterShardGone) == "Will be raised when a coordinator in a cluster cannot determine the shard that is responsible for a given document."@,
        error_code_description(ErrorCode::ClusterConnectionLost) == "Will be raised when a coordinator in a cluster loses an HTTP connection to a DBserver in the cluster whilst transferring data."@,
        error_code_description(ErrorCode::ClusterMustNotSpecifyKey) == "Will be raised when a coordinator in a cluster finds that the _key attribute was specified in a sharded collection the uses not only _key as sharding attribute."@,
        error_code_description(ErrorCode::ClusterGotContradictingAnswers) == "Will be raised if a coordinator in a cluster gets conflicting results from different shards, which should never happen."@,
        error_code_description(ErrorCode::ClusterNotAllShardingAttributesGiven) == "Will be raised if a coordinator tries to find out which shard is responsible for a partial document, but cannot do this because not all sharding attributes are specified."@,
        error_code_description(ErrorCode::ClusterMustNotChangeShardingAttributes) == "Will be raised if there is an attempt to update the value of a shard attribute."@,
        error_code_description(ErrorCode::ClusterUnsupported) == "Will be raised when there is an attempt to carry out an operation that is not supported in the context of a sharded collection."@,
        error_code_description(ErrorCode::ClusterOnlyOnCoordinator) == "Will be raised if there is an attempt to run a coordinator-only operation on a different type of node."@,
        error_code_description(ErrorCode::ClusterReadingPlanAgency) == "Will be raised if a coordinator or DBserver cannot read the Plan in the agency."@,
        error_code_description(ErrorCode::ClusterCouldNotTruncateCollection) == "Will be raised if a coordinator cannot truncate all shards of a cluster collection."@,
        error_code_description(ErrorCode::ClusterAqlCommunication) == "Will be raised if the internal communication of the cluster for AQL produces an error."@,
        error_code_description(ErrorCode::ArangoDocumentNotFoundOrShardingAttributesChanged) == "Will be raised when a document with a given identifier or handle is unknown, or if the sharding attributes have been changed in a REPLACE operation in the cluster."@,
        error_code_description(ErrorCode::ClusterCouldNotDetermineId) == "Will be raised if a cluster server at startup could not determine its own ID from the local info provided."@,
        error_code_description(ErrorCode::ClusterOnlyOnDbserver) == "Will be raised if there is an attempt to run a DBserver-only operation on a different type of node."@,
        error_code_description(ErrorCode::ClusterBackendUnavailable) == "Will be raised if a required db server can't be reached."@,
        error_code_description(ErrorCode::ClusterUnknownCallbackEndpoint) == "An endpoint couldn't be found"@,
        error_code_description(ErrorCode::ClusterAgencyStructureInvalid) == "The structure in the agency is invalid"@,
        error_code_description(ErrorCode::ClusterAqlCollectionOutOfSync) == "Will be raised if a collection needed during query execution is out of sync. This currently can only happen when using satellite collections"@,
        error_code_description(ErrorCode::ClusterCouldNotCreateIndexInPlan) == "Will be raised when a coordinator in a cluster cannot create an entry for a new index in the Plan hierarchy in the agency."@,
        error_code_description(ErrorCode::ClusterCouldNotDropIndexInPlan) == "Will be raised when a coordinator in a cluster cannot remove an index from the Plan hierarchy in the agency."@,
        error_code_description(ErrorCode::ClusterChainOfDistributeshardslike) == "Will be raised if one tries to create a collection with a distributeShardsLike attribute which points to another collection that also has one."@,
        error_code_description(ErrorCode::ClusterMustNotDropCollOtherDistributeshardslike) == "Will be raised if one tries to drop a collection to which another collection points with its distributeShardsLike attribute."@,
        error_code_description(ErrorCode::ClusterUnknownDistributeshardslike) == "Will be raised if one tries to create a collection which points to an unknown collection in its distributeShardsLike attribute."@,
        error_code_description(ErrorCode::ClusterInsufficientDbservers) == "Will be raised if one tries to create a collection with a replicationFactor greater than the available number of DBServers."@,
        error_code_description(ErrorCode::ClusterCouldNotDropFollower) == "Will be raised if a follower that ought to be dropped could not be dropped in the agency (under Current)."@,
        error_code_description(ErrorCode::ClusterShardLeaderRefusesReplication) == "Will be raised if a replication operation is refused by a shard leader."@,
        error_code_description(ErrorCode::ClusterShardFollowerRefusesOperation) == "Will be raised if a non-replication operation is refused by a shard follower."@,
        error_code_description(ErrorCode::ClusterShardLeaderResigned) == "Will be raised if a non-replication operation is refused by a former shard leader that has found out that it is no longer the leader."@,
        error_code_description(ErrorCode::ClusterAgencyCommunicationFailed) == "Will be raised if after various retries an agency operation could not be performed successfully."@,
        error_code_description(ErrorCode::ClusterDistributeShardsLikeReplicationFactor) == "Will be raised if intended replication factor does not match that of the prototype shard given in ditributeShardsLike parameter."@,
        error_code_description(ErrorCode::ClusterDistributeShardsLikeNumberOfShards) == "Will be raised if intended number of shards does not match that of the prototype shard given in ditributeShardsLike parameter."@,
        error_code_description(ErrorCode::QueryKilled) == "Will be raised when a running query is killed by an explicit admin command."@,
        error_code_description(ErrorCode::QueryParse) == "Will be raised when query is parsed and is found to be syntactically invalid."@,
        error_code_description(ErrorCode::QueryEmpty) == "Will be raised when an empty query is specified."@,
        error_code_description(ErrorCode::QueryScript) == "Will be raised when a runtime error is caused by the query."@,
        error_code_description(ErrorCode::QueryNumberOutOfRange) == "Will be raised when a number is outside the expected range."@,
        error_code_description(ErrorCode::QueryVariableNameInvalid) == "Will be raised when an invalid variable name is used."@,
        error_code_description(ErrorCode::QueryVariableRedeclared) == "Will be raised when a variable gets re-assigned in a query."@,
        error_code_description(ErrorCode::QueryVariableNameUnknown) == "Will be raised when an unknown variable is used or the variable is undefined the context it is used."@,
        error_code_description(ErrorCode::QueryCollectionLockFailed) == "Will be raised when a read lock on the collection cannot be acquired."@,
        error_code_description(ErrorCode::QueryTooManyCollections) == "Will be raised when the number of collections in a query is beyond the allowed value."@,
        error_code_description(ErrorCode::QueryDocumentAttributeRedeclared) == "Will be raised when a document attribute is re-assigned."@,
        error_code_description(ErrorCode::QueryFunctionNameUnknown) == "Will be raised when an undefined function is called."@,
        error_code_description(ErrorCode::QueryFunctionArgumentNumberMismatch) == "Will be raised when the number of arguments used in a function call does not match the expected number of arguments for the function."@,
        error_code_description(ErrorCode::QueryFunctionArgumentTypeMismatch) == "Will be raised when the type of an argument used in a function call does not match the expected argument type."@,
        error_code_description(ErrorCode::QueryInvalidRegex) == "Will be raised when an invalid regex argument value is used in a call to a function that expects a regex."@,
        error_code_description(ErrorCode::QueryBindParametersInvalid) == "Will be raised when the structure of bind parameters passed has an unexpected format."@,
        error_code_description(ErrorCode::QueryBindParameterMissing) == "Will be raised when a bind parameter was declared in the query but the query is being executed with no value for that parameter."@,
        error_code_description(ErrorCode::QueryBindParameterUndeclared) == "Will be raised when a value gets specified for an undeclared bind parameter."@,
        error_code_description(ErrorCode::QueryBindParameterType) == "Will be raised when a bind parameter has an invalid value or type."@,
        error_code_description(ErrorCode::QueryInvalidLogicalValue) == "Will be raised when a non-boolean value is used in a logical operation."@,
        error_code_description(ErrorCode::QueryInvalidArithmeticValue) == "Will be raised when a non-numeric value is used in an arithmetic operation."@,
        error_code_description(ErrorCode::QueryDivisionByZero) == "Will be raised when there is an attempt to divide by zero."@,
        error_code_description(ErrorCode::QueryArrayExpected) == "Will be raised when a non-array operand is used for an operation that expects an array argument operand."@,
        error_code_description(ErrorCode::QueryFailCalled) == "Will be raised when the function FAIL() is called from inside a query."@,
        error_code_description(ErrorCode::QueryGeoIndexMissing) == "Will be raised when a geo restriction was specified but no suitable geo index is found to resolve it."@,
        error_code_description(ErrorCode::QueryFulltextIndexMissing) == "Will be raised when a fulltext query is performed on a collection without a suitable fulltext index."@,
        error_code_description(ErrorCode::QueryInvalidDateValue) == "Will be raised when a value cannot be converted to a date."@,
        error_code_description(ErrorCode::QueryMultiModify) == "Will be raised when an AQL query contains more than one data-modifying operation."@,
        error_code_description(ErrorCode::QueryInvalidAggregateExpression) == "Will be raised when an AQL query contains an invalid aggregate expression."@,
        error_code_description(ErrorCode::QueryCompileTimeOptions) == "Will be raised when an AQL data-modification query contains options that cannot be figured out at query compile time."@,
        error_code_description(ErrorCode::QueryExceptionOptions) == "Will be raised when an AQL data-modification query contains an invalid options specification."@,
        error_code_description(ErrorCode::QueryCollectionUsedInExpression) == "Will be raised when a collection is used as an operand in an AQL expression."@,
        error_code_description(ErrorCode::QueryDisallowedDynamicCall) == "Will be raised when a dynamic function call is made to a function that cannot be called dynamically."@,
        error_code_description(ErrorCode::QueryAccessAfterModification) == "Will be raised when collection data are accessed after a data-modification operation."@,
        error_code_description(ErrorCode::QueryFunctionInvalidName) == "Will be raised when a user function with an invalid name is registered."@,
        error_code_description(ErrorCode::QueryFunctionInvalidCode) == "Will be raised when a user function is registered with invalid code."@,
        error_code_description(ErrorCode::QueryFunctionNotFound) == "Will be raised when a user function is accessed but not found."@,
        error_code_description(ErrorCode::QueryFunctionRuntimeError) == "Will be raised when a user function throws a runtime exception."@,
        error_code_description(ErrorCode::QueryBadJsonPlan) == "Will be raised when an HTTP API for a query got an invalid JSON object."@,
        error_code_description(ErrorCode::QueryNotFound) == "Will be raised when an Id of a query is not found by the HTTP API."@,
        error_code_description(ErrorCode::QueryInUse) == "Will be raised when an Id of a query is found by the HTTP API but the query is in use."@,
        error_code_description(ErrorCode::CursorNotFound) == "Will be raised when a cursor is requested via its id but a cursor with that id cannot be found."@,
        error_code_description(ErrorCode::CursorBusy) == "Will be raised when a cursor is requested via its id but a concurrent request is still using the cursor."@,
        error_code_description(ErrorCode::TransactionInternal) == "Will be raised when a wrong usage of transactions is detected. this is an internal error and indicates a bug in ArangoDB."@,
        error_code_description(ErrorCode::TransactionNested) == "Will be raised when transactions are nested."@,
        error_code_description(ErrorCode::TransactionUnregisteredCollection) == "Will be raised when a collection is used in the middle of a transaction but was not registered at transaction start."@,
        error_code_description(ErrorCode::TransactionDisallowedOperation) == "Will be raised when a disallowed operation is carried out in a transaction."@,
        error_code_description(ErrorCode::TransactionAborted) == "Will be raised when a transaction was aborted."@,
        error_code_description(ErrorCode::UserInvalidName) == "Will be raised when an invalid user name is used."@,
        error_code_description(ErrorCode::UserInvalidPassword) == "Will be raised when an invalid password is used."@,
        error_code_description(ErrorCode::UserDuplicate) == "Will be raised when a user name already exists."@,
        error_code_description(ErrorCode::UserNotFound) == "Will be raised when a user name is updated that does not exist."@,
        error_code_description(ErrorCode::UserChangePassword) == "Will be raised when the user must change his password."@,
        error_code_description(ErrorCode::ServiceInvalidName) == "Will be raised when an invalid service name is specified."@,
        error_code_description(ErrorCode::ServiceInvalidMount) == "Will be raised when an invalid mount is specified."@,
        error_code_description(ErrorCode::ServiceDownloadFailed) == "Will be raised when a service download from the central repository failed."@,
        error_code_description(ErrorCode::ServiceUploadFailed) == "Will be raised when a service upload from the client to the ArangoDB server failed."@,
        error_code_description(ErrorCode::LdapCannotInit) == "can not init a LDAP connection"@,
        error_code_description(ErrorCode::LdapCannotSetOption) == "can not set a LDAP option"@,
        error_code_description(ErrorCode::LdapCannotBind) == "can not bind to a LDAP server"@,
        error_code_description(ErrorCode::LdapCannotUnbind) == "can not unbind from a LDAP server"@,
        error_code_description(ErrorCode::LdapCannotSearch) == "can not search the LDAP server"@,
        error_code_description(ErrorCode::LdapCannotStartTls) == "can not star a TLS LDAP session"@,
        error_code_description(ErrorCode::LdapFoundNoObjects) == "LDAP didn't found any objects with the specified search query"@,
        error_code_description(ErrorCode::LdapNotOneUserFound) == "LDAP found zero ore more than one user"@,
        error_code_description(ErrorCode::LdapUserNotIdentified) == "LDAP found a user, but its not the desired one"@,
        error_code_description(ErrorCode::LdapInvalidMode) == "cant distinguish a valid mode for provided ldap configuration"@,
        error_code_description(ErrorCode::TaskInvalidId) == "Will be raised when a task is created with an invalid id."@,
        error_code_description(ErrorCode::TaskDuplicateId) == "Will be raised when a task id is created with a duplicate id."@,
        error_code_description(ErrorCode::TaskNotFound) == "Will be raised when a task with the specified id could not be found."@,
        error_code_description(ErrorCode::GraphInvalidGraph) == "Will be raised when an invalid name is passed to the server."@,
        error_code_description(ErrorCode::GraphCouldNotCreateGraph) == "Will be raised when an invalid name, vertices or edges is passed to the server."@,
        error_code_description(ErrorCode::GraphInvalidVertex) == "Will be raised when an invalid vertex id is passed to the server."@,
        error_code_description(ErrorCode::GraphCouldNotCreateVertex) == "Will be raised when the vertex could not be created."@,
        error_code_description(ErrorCode::GraphCouldNotChangeVertex) == "Will be raised when the vertex could not be changed."@,
        error_code_description(ErrorCode::GraphInvalidEdge) == "Will be raised when an invalid edge id is passed to the server."@,
        error_code_description(ErrorCode::GraphCouldNotCreateEdge) == "Will be raised when the edge could not be created."@,
        error_code_description(ErrorCode::GraphCouldNotChangeEdge) == "Will be raised when the edge could not be changed."@,
        error_code_description(ErrorCode::GraphTooManyIterations) == "Will be raised when too many iterations are done in a graph traversal."@,
        error_code_description(ErrorCode::GraphInvalidFilterResult) == "Will be raised when an invalid filter result is returned in a graph traversal."@,
        error_code_description(ErrorCode::GraphCollectionMultiUse) == "An edge collection may only be used once in one edge definition of a graph."@,
        error_code_description(ErrorCode::GraphCollectionUseInMultiGraphs) == "Is already used by another graph in a different edge definition."@,
        error_code_description(ErrorCode::GraphCreateMissingName) == "A graph name is required to create a graph."@,
        error_code_description(ErrorCode::GraphCreateMalformedEdgeDefinition) == "The edge definition is malformed. It has to be an array of objects."@,
        error_code_description(ErrorCode::GraphNotFound) == "A graph with this name could not be found."@,
        error_code_description(ErrorCode::GraphDuplicate) == "A graph with this name already exists."@,
        error_code_description(ErrorCode::GraphVertexColDoesNotExist) == "The specified vertex collection does not exist or is not part of the graph."@,
        error_code_description(ErrorCode::GraphWrongCollectionTypeVertex) == "The collection is not a vertex collection."@,
        error_code_description(ErrorCode::GraphNotInOrphanCollection) == "Vertex collection not in orphan collection of the graph."@,
        error_code_description(ErrorCode::GraphCollectionUsedInEdgeDef) == "The collection is already used in an edge definition of the graph."@,
        error_code_description(ErrorCode::GraphEdgeCollectionNotUsed) == "The edge collection is not used in any edge definition of the graph."@,
        error_code_description(ErrorCode::GraphNotAnArangoCollection) == "The collection is not an ArangoCollection."@,
        error_code_description(ErrorCode::GraphNoGraphCollection) == "Collection _graphs does not exist."@,
        error_code_description(ErrorCode::GraphInvalidExampleArrayObjectString) == "Invalid example type. Has to be String, Array or Object."@,
        error_code_description(ErrorCode::GraphInvalidExampleArrayObject) == "Invalid example type. Has to be Array or Object."@,
        error_code_description(ErrorCode::GraphInvalidNumberOfArguments) == "Invalid number of arguments. Expected: "@,
        error_code_description(ErrorCode::GraphInvalidParameter) == "Invalid parameter type."@,
        error_code_description(ErrorCode::GraphInvalidId) == "Invalid id"@,
        error_code_description(ErrorCode::GraphCollectionUsedInOrphans) == "The collection is already used in the orphans of the graph."@,
        error_code_description(ErrorCode::GraphEdgeColDoesNotExist) == "The specified edge collection does not exist or is not part of the graph."@,
        error_code_description(ErrorCode::GraphEmpty) == "The requested graph has no edge collections."@,
        error_code_description(ErrorCode::SessionUnknown) == "Will be raised when an invalid/unknown session id is passed to the server."@,
        error_code_description(ErrorCode::SessionExpired) == "Will be raised when a session is expired."@,
        error_code_description(ErrorCode::SimpleClientUnknownError) == "This error should not happen."@,
        error_code_description(ErrorCode::SimpleClientCouldNotConnect) == "Will be raised when the client could not connect to the server."@,
        error_code_description(ErrorCode::SimpleClientCouldNotWrite) == "Will be raised when the client could not write data."@,
        error_code_description(ErrorCode::SimpleClientCouldNotRead) == "Will be raised when the client could not read data."@,
        error_code_description(ErrorCode::CommunicatorRequestAborted) == "Request was aborted."@,
        error_code_description(ErrorCode::CommunicatorDisabled) == "Communication was disabled."@,
        error_code_description(ErrorCode::MalformedManifestFile) == "The service manifest file is not well-formed JSON."@,
        error_code_description(ErrorCode::InvalidServiceManifest) == "The service manifest contains invalid values."@,
        error_code_description(ErrorCode::ServiceFilesMissing) == "The service folder or bundle does not exist on this server."@,
        error_code_description(ErrorCode::ServiceFilesOutdated) == "The local service bundle does not match the checksum in the database."@,
        error_code_description(ErrorCode::InvalidFoxxOptions) == "The service options contain invalid values."@,
        error_code_description(ErrorCode::InvalidMountpoint) == "The service mountpath contains invalid characters."@,
        error_code_description(ErrorCode::ServiceNotFound) == "No service found at the given mountpath."@,
        error_code_description(ErrorCode::ServiceNeedsConfiguration) == "The service is missing configuration or dependencies."@,
        error_code_description(ErrorCode::ServiceMountpointConflict) == "A service already exists at the given mountpath."@,
        error_code_description(ErrorCode::ServiceManifestNotFound) == "The service directory does not contain a manifest file."@,
        error_code_description(ErrorCode::ServiceOptionsMalformed) == "The service options are not well-formed JSON."@,
        error_code_description(ErrorCode::ServiceSourceNotFound) == "The source path does not match a file or directory."@,
        error_code_description(ErrorCode::ServiceSourceError) == "The source path could not be resolved."@,
        error_code_description(ErrorCode::ServiceUnknownScript) == "The service does not have a script with this name."@,
        error_code_description(ErrorCode::ModuleNotFound) == "The module path could not be resolved."@,
        error_code_description(ErrorCode::ModuleSyntaxError) == "The module could not be parsed because of a syntax error."@,
        error_code_description(ErrorCode::ModuleFailure) == "Failed to invoke the module in its context."@,
        error_code_description(ErrorCode::NoSmartCollection) == "The requested collection needs to be smart, but it ain't"@,
        error_code_description(ErrorCode::NoSmartGraphAttribute) == "The given document does not have the smart graph attribute set."@,
        error_code_description(ErrorCode::CannotDropSmartCollection) == "This smart collection cannot be dropped, it dictates sharding in the graph."@,
        error_code_description(ErrorCode::KeyMustBePrefixedWithSmartGraphAttribute) == "In a smart vertex collection _key must be prefixed with the value of the smart graph attribute."@,
        error_code_description(ErrorCode::IllegalSmartGraphAttribute) == "The given smartGraph attribute is illegal and connot be used for sharding. All system attributes are forbidden."@,
        error_code_description(ErrorCode::AgencyInquirySyntax) == "Inquiry handles a list of string clientIds: [,...]."@,
        error_code_description(ErrorCode::AgencyInformMustBeObject) == "The inform message in the agency must be an object."@,
        error_code_description(ErrorCode::AgencyInformMustContainTerm) == "The inform message in the agency must contain a uint parameter 'term'."@,
        error_code_description(ErrorCode::AgencyInformMustContainId) == "The inform message in the agency must contain a string parameter 'id'."@,
        error_code_description(ErrorCode::AgencyInformMustContainActive) == "The inform message in the agency must contain an array 'active'."@,
        error_code_description(ErrorCode::AgencyInformMustContainPool) == "The inform message in the agency must contain an object 'pool'."@,
        error_code_description(ErrorCode::AgencyInformMustContainMinPing) == "The inform message in the agency must contain an object 'min ping'."@,
        error_code_description(ErrorCode::AgencyInformMustContainMaxPing) == "The inform message in the agency must contain an object 'max ping'."@,
        error_code_description(ErrorCode::AgencyInformMustContainTimeoutMult) == "The inform message in the agency must contain an object 'timeoutMult'."@,
        error_code_description(ErrorCode::AgencyInquireClientIdMustBeString) == "Inquiry by clientId failed"@,
        error_code_description(ErrorCode::AgencyCannotRebuildDbs) == "Will be raised if the readDB or the spearHead cannot be rebuilt from the replicated log."@,
        error_code_description(ErrorCode::SupervisionGeneralFailure) == "General supervision failure."@,
        error_code_description(ErrorCode::DispatcherIsStopping) == "Will be returned if a shutdown is in progress."@,
        error_code_description(ErrorCode::QueueUnknown) == "Will be returned if a queue with this name does not exist."@,
        error_code_description(ErrorCode::QueueFull) == "Will be returned if a queue with this name is full."@,
        error_code_description(ErrorCode::UnknownError) == "An error occurred that is not known by the driver."@,
{
}

} // verus!
