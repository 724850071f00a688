# m3

Parts of the M3 runtime, written in Verus with their contracts proved:

- `tmif`: the calls an application makes into TileMux, and what TileMux's answer means.
- `cap`, `sem`: capabilities and kernel semaphores; what letting go of them asks of the kernel.
- `rgate`: receive gates: their arguments, creation, activation and waiting, each as steps
  that take the answer of the runtime to the previous action.
- `heap`: the initial layout of the heap's sentinel areas.
- `util`, `kif`, `tcu`, `time`, `errors`: the small pieces they build on.

`app/` performs the work the library asks for (calls into TileMux and the kernel, memory
writes) against a runtime given as a trait.
