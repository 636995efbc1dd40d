# business_core_postgres

The repository layer of a core-banking data store, as a library whose
behaviour is proved with Verus.

* `src/` — the verified library:
  * `hashing`, `ids`, `values`: content hashes over canonical word
    encodings, identifiers, and plain forms of decimal, date and time columns;
  * `audit`: the audit hash chain every audited write follows (create,
    update, delete), with its laws;
  * `cache`: index caches by primary id with lookups by secondary columns,
    and their transaction-aware forms (commit publishes, rollback discards);
  * `batch`, `pagination`: putting batch loads back in order, and pages of
    finder results;
  * `models`: the records and their index rows;
  * `repository`: what each repository's batch operations write and how they
    keep the caches of a unit of work in step.
* `tests/` — tests of the library on concrete values.
* `app/` — the PostgreSQL side: the SQL each repository runs inside the unit
  of work's transaction around the library's decisions, and the conversions
  between column types and the library's plain values.
