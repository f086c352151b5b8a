# day_toolkits

Three backends of a declarative UI toolkit — the page (DOM), HarmonyOS (ArkUI) and GTK — as
verified decision code. An app describes its interface as pieces and patches; a backend turns them
into calls on the platform's own widgets and turns what the user does back into events.

* `src/` is the verified library. Every function takes plain values and gives plain values back: a
  list of calls for the platform (`dom::act::Act`, `arkui::act::Act`, `gtk::act::Act`), an answer,
  or an event. Contracts are stated over ghost views of the backends' memory and over the models of
  those calls.
  * `model`, `pieces`: the vocabulary — fonts, colors, pieces, patches, events.
  * `num`: doubles by their bit patterns; `text`, `json`, `runs`, `rows`, `keys`, `table`,
    `logging`: what the backends share.
  * `dom`: elements, styles, the JSON specs, the drawing encoder, lists, navigation, the shim's
    callbacks.
  * `arkui`: nodes, menus, navigation, the event trampoline, the font manifest.
  * `gtk`: widgets, labels, menus, drawing, paths, navigation, dialogs, windows, lists and trees.
* `app/` is the ordinary Rust around it: the calls into the page shim, the native nodes and GTK, and
  the floating point that their answers leave to be done.
* `tests/` runs the library on concrete values.
