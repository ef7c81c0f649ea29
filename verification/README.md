# stryke-gcp

A bridge from JSON options to the REST APIs of Google Cloud: Cloud Storage, Pub/Sub, Secret
Manager, BigQuery, Firestore, Compute Engine, Cloud Run, Cloud Functions, Cloud Logging, Cloud
Monitoring and IAM.

The library in `src/` does no I/O. It builds the request of an operation from its options and the
project variables of the environment, decides what a reply's status means, and shapes the reply.
Beside that it parses, builds and checks the names that Google Cloud gives to things: `gs://` URIs,
resource names, BigQuery table references, and the ids of buckets, projects, topics, secrets and
the rest. Every function carries a contract over JSON values and texts, and Verus proves it.

- `json`, `text`, `decimal`, `codec`: values, texts, numbers, percent-encoding, base64 and UTF-8
- `request`, `options`: requests and errors, options and the environment
- `gs_uri`, `resource_name`, `table_ref`, `naming`: names of things
- `firestore`: Firestore's typed values
- `ops`: one module for each service, with the request and the result of each operation
- `bridge`: operations by name, from the request to the answer
- `common`, `auth`, `gcs`, `pubsub`: the commands of the helper

`app/` holds the program around it: the exports that stryke loads, the helper's command line, and
the HTTP and credentials plumbing.
