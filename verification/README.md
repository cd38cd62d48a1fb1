# dsh

The verified core of a command line tool for the DSH resource management API.

- `src/` is the library, written and proved with Verus: the labels and values
  under which resources are shown, the issues found in certificates and
  secrets, acl group grants and revokes, app catalog parameters, proxy
  deployment and undeployment and certificate deletion as verified step
  functions, service lifecycle decisions, image usage listings, environment
  searches and the text helpers they share. Calls into `regex`,
  `serde_json`, `termimad`, `chrono` and `dsh_api` stand behind small
  trusted wrappers whose contracts say what the library relies on.
- `tests/` exercises the library on concrete values.
- `app/` is the unverified shell around it: talking to the platform through
  `dsh_api`, reading from and printing to the terminal, and converting
  between the platform's types and the library's own.
