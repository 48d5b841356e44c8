# wallet_dashboard

The logic of a self-custodial wallet's dashboard, written in Rust and verified
with [Verus](https://github.com/verus-lang/verus).

The dashboard shows the balances and the history of an account or of a Safe,
sends, swaps, registers names, keeps contacts and runs the Privacy Pools app.
Everything that it decides is a plain state machine or a plain function with a
contract; whatever draws, waits, signs or talks to the network is asked for, and
answers, through plain values.

## Layout

- `src/` is the verified library.
  - `text`, `types`, `keyed`, `lists`, `ranking`, `sanitize`, `amounts`, `names`,
    `keys`: texts, numbers, tables and the like.
  - `identity`, `signer`, `portfolio`, `history`, `orders`, `safe_queue`,
    `clipboard`, `contacts`, `phrase`, `review`: the parts of the dashboard's state.
  - `home`, `activity`, `account_dropdown`, `header`, `nav`, `modal_chrome`,
    `networks`, `contacts_settings`, `contacts_view`, `kaomoji`, `apps`,
    `function_panel`, `pool_app`, `pool_view`: panes, dialogs and what they show.
  - `swap`, `safe_tx`, `name_writes`, `fetch`: what is signed, and what is fetched.
  - `crew`, `cow_flow`, `safe_flow`, `name_flow`: operations that alternate between
    decisions and work outside, as machines from an event to the next action.
  - `screen*` and `update_*`: the dashboard as a whole, from a message to its
    next state and what it asks for.
  - `pool_laws`, `screen_steps`, `screen_settles`, `screen_laws`: what holds of the
    Privacy Pools app and of the dashboard whatever happens.
- `tests/` runs the library on concrete values.
- `app/` is ordinary Rust around the library: what performs the dashboard's requests
  and the machines' actions, timers, conversions to the types of other crates, and the
  floating point of animations and displayed amounts. The network, the devices and the
  window stand behind its traits `Host` and `Session`.

Public proof functions named `law_*` state properties that relate several
functions. Two kinds of contracts are not proved. Functions marked
`#[verifier::external_body]` each call one function of another crate and say what
they rely on. One `assume_specification`, in `text`, says what `String::push` of the
standard library does.
