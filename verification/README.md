# armature-ferron

Ferron reverse proxy integration for the Armature framework, with its logic
verified by [Verus](https://github.com/verus-lang/verus).

- `src/` is the verified library. It performs no I/O: a function that stands
  between two pieces of I/O takes what came of the first and says what the next
  is.
  - `config`: Ferron configurations and their builder
  - `process`: from when the server process is started to when it is stopped,
    restarted or given up
  - `health`, `http_check`: the health of backends, from the results of checks
  - `registry`: registration and discovery of service instances
  - `manager`: what is to be done as configuration and services change, and
    configurations for common uses
  - `watcher`: when a change of the configuration file leads to a reload
  - `error`, `path`, `string_map`, `text`, `time`: what these are made of
- `src/*/laws.rs`, and the `law_` functions of the other modules, state what
  holds across several calls.
- `app/` runs the library with Tokio: processes, signals, files, HTTP requests
  and background tasks. How a configuration is written for Ferron to read is up
  to the caller, who hands in a renderer.
- `tests/` runs the library on given values.

Paths are Unix paths and are kept as text.

## Service discovery

```rust
use armature_ferron::manager::ManagerAction;
use armature_ferron::{FerronManager, ServiceRegistry};

// Register services dynamically
let mut registry = ServiceRegistry::new();
registry.register("api-service", "http://localhost:3000").unwrap();
registry.register("api-service", "http://localhost:3001").unwrap();

// Create a manager with auto-discovery
let mut manager = FerronManager::builder()
    .config_path("/etc/ferron/ferron.conf")
    .auto_reload(true)
    .build()
    .unwrap()
    .manager;

// Start Ferron with the discovered backends
let actions = manager.start(Some(&registry)).unwrap();
assert_eq!(
    actions,
    vec![ManagerAction::WriteConfig, ManagerAction::StartProcess]
);
```
