# vhost-user-fs

The frontend of a vhost-user file-system device for a virtual machine monitor,
written in Verus. The library decides what the frontend decides: what the guest
reads in the config space, which features are negotiated with the backend, how
the DAX window is laid out, which requests of the backend are granted, in which
order the device is activated, how the state of the backend is captured,
saved, restored and loaded again, and what each failure means.

It makes no call to the host itself. An operation that needs the host is a value
with three methods:

- `pending` names the call that is next,
- `complete` takes the outcome of that call,
- `finish` gives the result once no call is pending.

Every such value has a view with spec functions `pending` and `step`; the
contracts tie the methods to them, and the laws (the proof functions whose names
begin with `law_`) speak of whole runs.

## Layout

| Module         | What it holds                                               |
| -------------- | ----------------------------------------------------------- |
| `config`       | what a user configures, and the defaults                    |
| `config_space` | the bytes that the guest reads                              |
| `queue`        | the virtqueues                                              |
| `device`       | the device, its invariant, and the methods without calls    |
| `request`      | the calls that the host is asked to make                    |
| `opening`      | creating a device: connecting and negotiating               |
| `dax`          | creating the DAX window                                     |
| `handler`      | granting the mapping requests of the backend                |
| `plan`         | the sequences of calls, and the error of each               |
| `activate`     | activating a device                                         |
| `capture`      | capturing the state of the backend                          |
| `persist`      | saving and restoring a device                               |
| `builder`      | the list of devices that are set up                         |
| `api`          | the API request that configures a device                    |
| `error`        | the errors                                                  |
| `outside`      | what is taken from other crates, believed and not proved    |

`tests/` runs the library against mock backends. `app/` makes the calls on a
Linux host, with the `vhost`, `memfd` and `vmm-sys-util` crates, and holds the
forms in which configurations and states are serialized. It is not verified.
