# burn_lora

Low-rank adaptation (LoRA) of neural network parameters, with contracts proved by
Verus.

The value of an adapted matrix is `base + scaling * (lora_a @ lora_b)`. A
parameter can be adapted (`Param::with_lora`), read with and without what adapts
it (`val`, `val_original`), and merged (`merge_lora`). `lora::LoraConfig` adapts
the matrices of a whole module by the names on their path, `lora::merge_lora`
makes the adaptations part of the matrices, and `lora::freeze_non_lora` leaves
only the adaptations to be trained.

Tensors are deferred: `tensor::Tensor` is a graph of operations, and its
dimensions, device and gradient requirement are read off the graph. Floating
point arithmetic is left to a `burn_tensor` backend.

- `src/shape.rs`: shapes, and the outside functions that compute them
- `src/tensor.rs`: deferred tensors
- `src/param/`: parameters, their transforms, loading, saving and moving
- `src/module.rs`: trees of parameters, visitors and mappers
- `src/lora.rs`: adapting, merging and freezing modules
- `src/text.rs`: descriptions and dotted paths
- `src/semantics.rs`, `src/laws.rs`: what the graphs stand for in exact
  arithmetic, and what holds over several operations
- `app/`: runs the graphs on a backend
