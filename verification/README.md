# smartdisk

Núcleo verificado con Verus de un monitor de salud de discos para Windows.

- `src/`: la biblioteca verificada.
  - Reglas de alerta: `reglas` (reglas vetadas), `reglas_eventos` (tabla proveedor/id → regla),
    `agrupacion` (deduplicación y transiciones de un grupo), `ciclo` (silencio e ignorar),
    `notificaciones` (cuándo se avisa), `motor` (rachas, umbrales y aumentos de las reglas
    SMART), `correlacion_rafaga` y `eventos` (evaluación de los eventos del sistema).
  - Colectores: `deteccion` (altas y bajas), `event_log` (XML de los eventos), `smartctl` y
    `smartctl_parser`, `windows_storage` y `capacidad` (inventario), `perf_counters`,
    `planificador` (intervalos).
  - Inventario: `inventario` (fusión de discos y volúmenes leídos con los guardados, enlace de
    cada volumen con su disco, letra de unidad).
  - Pruebas bajo demanda: `pruebas` (admisión y parámetros del benchmark, `chkdsk /scan` y el
    autotest corto, y el estado y resumen de cada desenlace).
  - Comandos: `commands` (respuesta a la interfaz, estado de las fuentes, huella de
    deduplicación, series) y `ajustes` (reglas de validación y decisión de la escritura de cada
    ajuste).
  - Apoyo: `texto` (búsqueda, enteros decimales, espacios) y `tipos`.
- `tests/`: pruebas de la biblioteca.
- `app/`: lo que no se verifica: lectura de JSON, procesos externos, el registro de eventos y
  los contadores de rendimiento de Windows, y la evaluación sobre series de coma flotante.

Las duraciones e instantes se expresan en nanosegundos (`i128`/`u128`); los textos se
especifican por su vista `Seq<char>`.
