# odoo_18_quotations_to_19

Migrates sales orders, leads, journal entries and contact fields from an
Odoo 18 database to an Odoo 19 database.

- `src/` is the library, verified with Verus: the records read from Odoo 18
  and written to Odoo 19 (`models`), how one becomes the other, the caches
  that map Odoo 18 identifiers to Odoo 19 ones (`utils::id_mapping` and the
  `*_cache` modules), the paging through a model (`utils::iterate_chunks`),
  the normalisation of product names (`utils`), the reading of property
  names and of batch-update values (`transfert`, `batch_update`), and the
  shapes of Odoo's API values (`odoo_api_commons`).  Regular expressions
  (`pattern`) and JSON values (`json`) are the `regex` and `serde_json`
  crates, called through functions whose contracts state what they do.
- `app/` is the program: the command line, the configuration file, the
  clients of the two Odoo servers and the loops that read, convert and
  write records, using the library for the conversions, mappings and paging.
- `tests/` exercises the library on concrete values.
